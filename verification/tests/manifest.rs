use boiler::manifest::{join_lines, patch_manifest, splice_scripts, split_lines};

const FRESH: &str = "{\n  \"name\": \"my-app\",\n  \"version\": \"1.0.0\",\n  \"description\": \"\",\n  \"main\": \"index.js\",\n  \"scripts\": {\n    \"test\": \"echo \\\"Error: no test specified\\\" && exit 1\"\n  },\n  \"keywords\": [],\n  \"author\": \"\",\n  \"license\": \"ISC\"\n}\n";

fn scripts() -> Vec<String> {
    vec![
        "\t\t\"dev\": \"nodemon --exec babel-node index.js\",".to_string(),
        "\t\t\"run\": \"babel-node index.js\"".to_string(),
    ]
}

fn lines(text: &[u8]) -> Vec<String> {
    split_lines(text).into_iter().map(|line| String::from_utf8(line).unwrap()).collect()
}

#[test]
fn split_lines_cuts_at_every_line_feed() {
    assert_eq!(lines(b"a\nbc\n\nd"), vec!["a", "bc", "", "d"]);
}

#[test]
fn split_lines_of_empty_text_is_one_empty_line() {
    assert_eq!(split_lines(b""), vec![Vec::<u8>::new()]);
}

#[test]
fn split_lines_keeps_a_last_empty_line() {
    assert_eq!(lines(b"a\n"), vec!["a", ""]);
    assert_eq!(lines(b"\n"), vec!["", ""]);
}

#[test]
fn split_lines_leaves_carriage_returns_in_the_line() {
    assert_eq!(lines(b"a\r\nb"), vec!["a\r", "b"]);
}

#[test]
fn join_lines_puts_one_line_feed_between_lines() {
    let given = vec![b"a".to_vec(), b"".to_vec(), b"bc".to_vec()];
    assert_eq!(join_lines(&given), b"a\n\nbc".to_vec());
    assert_eq!(join_lines(&vec![b"only".to_vec()]), b"only".to_vec());
    assert_eq!(join_lines(&Vec::new()), Vec::<u8>::new());
}

#[test]
fn join_undoes_split() {
    for text in ["", "\n", "a", "a\nb\n", "\n\nx\n\n", FRESH] {
        assert_eq!(join_lines(&split_lines(text.as_bytes())), text.as_bytes().to_vec());
    }
}

#[test]
fn split_undoes_join_of_single_lines() {
    let given = vec![b"one".to_vec(), b"".to_vec(), b"three".to_vec()];
    assert_eq!(split_lines(&join_lines(&given)), given);
}

#[test]
fn splice_replaces_the_seventh_line() {
    let mut given: Vec<Vec<u8>> = (0..9).map(|i| format!("line {}", i).into_bytes()).collect();
    splice_scripts(&mut given, &vec!["first".to_string(), "second".to_string()]);
    let after: Vec<String> = given.into_iter().map(|l| String::from_utf8(l).unwrap()).collect();
    assert_eq!(
        after,
        vec![
            "line 0", "line 1", "line 2", "line 3", "line 4", "line 5", "first", "second",
            "line 7", "line 8"
        ]
    );
}

#[test]
fn patch_puts_the_scripts_where_the_placeholder_stood() {
    let patched = patch_manifest(FRESH.as_bytes(), &scripts()).unwrap();
    let expected = "{\n  \"name\": \"my-app\",\n  \"version\": \"1.0.0\",\n  \"description\": \"\",\n  \"main\": \"index.js\",\n  \"scripts\": {\n\t\t\"dev\": \"nodemon --exec babel-node index.js\",\n\t\t\"run\": \"babel-node index.js\"\n  },\n  \"keywords\": [],\n  \"author\": \"\",\n  \"license\": \"ISC\"\n}\n";
    assert_eq!(String::from_utf8(patched).unwrap(), expected);
}

#[test]
fn patch_keeps_every_other_line_and_the_order_of_the_scripts() {
    let before = lines(FRESH.as_bytes());
    let after = lines(&patch_manifest(FRESH.as_bytes(), &scripts()).unwrap());
    assert_eq!(after.len(), before.len() - 1 + 2);
    assert_eq!(after[..6], before[..6]);
    assert_eq!(after[6], scripts()[0]);
    assert_eq!(after[7], scripts()[1]);
    assert_eq!(after[8..], before[7..]);
}

#[test]
fn patch_without_scripts_only_drops_the_placeholder() {
    let patched = patch_manifest(b"0\n1\n2\n3\n4\n5\n6\n7", &Vec::new()).unwrap();
    assert_eq!(patched, b"0\n1\n2\n3\n4\n5\n7".to_vec());
}

#[test]
fn patch_of_exactly_seven_lines() {
    let patched = patch_manifest(b"0\n1\n2\n3\n4\n5\n6", &vec!["s".to_string()]).unwrap();
    assert_eq!(patched, b"0\n1\n2\n3\n4\n5\ns".to_vec());
    let emptied = patch_manifest(b"0\n1\n2\n3\n4\n5\n6", &Vec::new()).unwrap();
    assert_eq!(emptied, b"0\n1\n2\n3\n4\n5".to_vec());
}

#[test]
fn patch_refuses_a_manifest_of_fewer_than_seven_lines() {
    assert_eq!(patch_manifest(b"", &scripts()), None);
    assert_eq!(patch_manifest(b"{}", &scripts()), None);
    assert_eq!(patch_manifest(b"0\n1\n2\n3\n4\n5", &scripts()), None);
}

#[test]
fn patch_writes_scripts_beyond_ascii_in_utf8() {
    let patched = patch_manifest(b"0\n1\n2\n3\n4\n5\n6\n7", &vec!["grüß".to_string()]).unwrap();
    assert_eq!(patched, "0\n1\n2\n3\n4\n5\ngrüß\n7".as_bytes().to_vec());
}

#[test]
fn second_patch_repeats_all_but_the_first_script() {
    let once = patch_manifest(FRESH.as_bytes(), &scripts()).unwrap();
    let twice = patch_manifest(&once, &scripts()).unwrap();
    assert_ne!(twice, once);
    let before = lines(FRESH.as_bytes());
    let after = lines(&twice);
    assert_eq!(after[..6], before[..6]);
    assert_eq!(after[6], scripts()[0]);
    assert_eq!(after[7], scripts()[1]);
    assert_eq!(after[8], scripts()[1]);
    assert_eq!(after[9..], before[7..]);
}

#[test]
fn second_patch_with_one_script_changes_nothing() {
    let one = vec!["only".to_string()];
    let once = patch_manifest(FRESH.as_bytes(), &one).unwrap();
    let twice = patch_manifest(&once, &one).unwrap();
    assert_eq!(twice, once);
}
