use boiler::create_boilerplate;
use boiler::creators::{
    add_basic_readme, add_npm_scripts, create_express_boilerplate, create_react_boilerplate,
    create_react_ts_boilerplate, install_dependencies_npm, install_dev_dependencies_npm,
    install_global_dependencies_npm, keep_folders, make_folder_structure, place_me_at,
};
use boiler::steps::{failure_is_fatal, ExternalCommand, Mode, Step, TemplateFile};
use boiler::templates::{marker_file, readme_content};

fn written(plan: &[Step]) -> Vec<(String, String)> {
    let mut files = Vec::new();
    for step in plan {
        if let Step::Write(file) = step {
            files.push((file.path.clone(), file.content.clone()));
        }
    }
    files
}

fn content_of(plan: &[Step], path: &str) -> String {
    let found: Vec<String> =
        written(plan).into_iter().filter(|(p, _)| p == path).map(|(_, c)| c).collect();
    assert_eq!(found.len(), 1);
    found[0].clone()
}

fn command(program: &str, args: &[&str], mode: Mode) -> Step {
    Step::Invoke(ExternalCommand {
        program: program.to_string(),
        args: args.iter().map(|a| a.to_string()).collect(),
        mode,
    })
}

fn file(path: &str, content: &str) -> Step {
    Step::Write(TemplateFile { path: path.to_string(), content: content.to_string() })
}

fn says(message: &str) -> Step {
    Step::Report(message.to_string())
}

const ENTRY: &str = "import dotenv from 'dotenv'\ndotenv.config()\n\nimport Express from 'express'\nimport routes from './routes'\nimport cors from 'cors'\nimport { json } from 'body-parser'\nimport xss from 'xss-clean'\nimport helmet from 'helmet'\n\nconst app = Express()\n\n// Middlewares\napp.use(cors())\napp.use(json())\napp.use(xss())\napp.use(helmet())\n\n// Routes\napp.use(routes)\napp.get('/', (req, res) => res.send('Hello, World!'))\n\napp.listen(process.env.PORT || 8000, () =>\n  console.log('Server is running at http://localhost:8000')\n)";

const UTILS: &str = "import { intersection } from 'lodash'\n\n\nexport const safeResponse = controller => (req, res) =>\n  controller(req, res).catch(e => res.status(500).send(e.message))\n\n\nexport const removeFields = (obj, fields) => {\n  fields.split(' ').forEach(field => {\n    delete obj[field]\n  })\n}\n\n\nexport const doesInclude = (obj, keys) =>\n  intersection(Object.keys(obj), keys.split(' ')).length != 0\n\n\nexport const selectFields = (obj, fields) => {\n  Object.keys(obj).forEach(key => {\n    if (fields.split(' ').indexOf(key) == -1) delete obj[key]\n  })\n}";

#[test]
fn current_directory_needs_no_placement() {
    assert_eq!(place_me_at("."), Vec::<Step>::new());
}

#[test]
fn other_location_is_created_and_entered() {
    assert_eq!(
        place_me_at("projects/my-app"),
        vec![
            Step::MakeRoot("projects/my-app".to_string()),
            Step::ChangeDir("projects/my-app".to_string())
        ]
    );
}

#[test]
fn only_the_single_dot_is_the_current_directory() {
    assert_eq!(place_me_at("./").len(), 2);
    assert_eq!(place_me_at("..").len(), 2);
    assert_eq!(place_me_at("").len(), 2);
}

#[test]
fn express_plan_in_order() {
    let expected = vec![
        command("git", &["init"], Mode::Synchronous),
        file(".gitignore", "node_modules"),
        says("+ Initiated a git repository"),
        command("npm", &["init", "-y"], Mode::Synchronous),
        says("+ Initiated a Node Project"),
        Step::MakeFolder("app".to_string()),
        Step::MakeFolder("app/models".to_string()),
        Step::MakeFolder("app/services".to_string()),
        Step::MakeFolder("app/routes".to_string()),
        Step::MakeFolder("app/controllers".to_string()),
        Step::MakeFolder("app/utils".to_string()),
        says("+ Created the Folders Structure"),
        Step::PatchScripts {
            manifest: "package.json".to_string(),
            scripts: vec![
                "\t\t\"dev\": \"nodemon --exec babel-node index.js\",".to_string(),
                "\t\t\"run\": \"babel-node index.js\"".to_string(),
            ],
        },
        says("+ Added The Necessary Scripts to package.json"),
        file("app/index.js", ENTRY),
        says("+ Generated index.js"),
        file(
            ".prettierrc",
            "{\n\t\"semi\": false,\n\t\"arrowParens\": \"avoid\",\n\t\"singleQuote\": true\n}",
        ),
        says("+ Added Prettier Config"),
        file(".env", "PORT=8000"),
        says("+ Added .ENV File"),
        file(".babelrc", "{ \"presets\": [\"@babel/preset-env\"] }"),
        says("+ Added Babel Config"),
        file("README.md", "# MY-APP\nHello World"),
        says("+ Added Basic README"),
        command("npm", &["i", "-g", "nodemon"], Mode::Detached),
        says("+ Installed the Global Dependencies"),
        command(
            "npm",
            &["i", "-D", "@babel/core", "@babel/node", "@babel/preset-env"],
            Mode::Detached,
        ),
        says("+ Installed the DEV Dependencies"),
        command(
            "npm",
            &["i", "body-parser", "cors", "dotenv", "express", "helmet", "lodash", "xss-clean"],
            Mode::Detached,
        ),
        says("+ Installed the Dependencies"),
        file(
            "app/routes/index.js",
            "import { Router } from 'express'\nconst router = Router()\nexport default router",
        ),
        file("app/controllers/.gitkeep", ""),
        file("app/routes/.gitkeep", ""),
        file("app/services/.gitkeep", ""),
        file("app/models/.gitkeep", ""),
        file("app/utils/.gitkeep", ""),
        file("app/utils/global.utils.js", UTILS),
    ];
    assert_eq!(create_express_boilerplate("my-app"), expected);
}

#[test]
fn express_in_the_current_directory() {
    let plan = create_boilerplate("express", ".", "my-app");
    assert_eq!(plan, create_express_boilerplate("my-app"));
    assert!(!plan.iter().any(|s| matches!(s, Step::MakeRoot(_) | Step::ChangeDir(_))));
    let readme = content_of(&plan, "README.md");
    assert!(readme.lines().any(|line| line == "# MY-APP"));
    let router = content_of(&plan, "app/routes/index.js");
    assert!(router.contains("const router = Router()"));
    assert!(router.lines().any(|line| line == "export default router"));
    for folder in ["app/models", "app/services", "app/routes", "app/controllers", "app/utils"] {
        assert_eq!(content_of(&plan, &format!("{}/.gitkeep", folder)), "");
    }
    let markers = written(&plan).into_iter().filter(|(p, _)| p.ends_with("/.gitkeep")).count();
    assert_eq!(markers, 5);
}

#[test]
fn react_is_placed_but_gets_no_files() {
    let plan = create_boilerplate("react", "somewhere", "my-app");
    assert_eq!(
        plan,
        vec![
            Step::MakeRoot("somewhere".to_string()),
            Step::ChangeDir("somewhere".to_string()),
            says("Create a react boilerplate"),
        ]
    );
    assert!(written(&plan).is_empty());
    assert_eq!(create_react_boilerplate(), vec![says("Create a react boilerplate")]);
}

#[test]
fn react_ts_is_placed_but_gets_no_files() {
    let plan = create_boilerplate("react-ts", "somewhere", "my-app");
    assert_eq!(plan.len(), 3);
    assert_eq!(plan[2], says("Create a react as ts boilerplate"));
    assert_eq!(create_react_ts_boilerplate(), vec![says("Create a react as ts boilerplate")]);
}

#[test]
fn unknown_kind_is_placed_and_says_so() {
    assert_eq!(create_boilerplate("next", ".", "my-app"), vec![says("Ah?..")]);
    assert_eq!(create_boilerplate("Express", ".", "my-app"), vec![says("Ah?..")]);
    assert_eq!(create_boilerplate("", "x", "my-app").len(), 3);
}

#[test]
fn placement_comes_before_every_other_step() {
    let plan = create_boilerplate("express", "projects/shop", "shop");
    assert_eq!(plan[0], Step::MakeRoot("projects/shop".to_string()));
    assert_eq!(plan[1], Step::ChangeDir("projects/shop".to_string()));
    assert_eq!(plan[2..], create_express_boilerplate("shop")[..]);
    for step in &plan[2..] {
        assert!(!matches!(step, Step::MakeRoot(_) | Step::ChangeDir(_)));
        match step {
            Step::MakeFolder(path) => assert!(!path.starts_with('/') && !path.contains("..")),
            Step::Write(file) => {
                assert!(!file.path.starts_with('/') && !file.path.contains(".."))
            }
            _ => {}
        }
    }
}

#[test]
fn readme_title_is_the_last_segment_in_upper_case() {
    let plan = create_express_boilerplate("acme/tools/my-app");
    assert_eq!(content_of(&plan, "README.md"), "# MY-APP\nHello World");
}

#[test]
fn only_the_readme_depends_on_the_name() {
    let first = create_express_boilerplate("one");
    let second = create_express_boilerplate("group/two");
    assert_eq!(first.len(), 37);
    assert_eq!(second.len(), 37);
    for i in 0..37 {
        if i == 22 {
            assert_eq!(first[i], file("README.md", "# ONE\nHello World"));
            assert_eq!(second[i], file("README.md", "# TWO\nHello World"));
        } else {
            assert_eq!(first[i], second[i]);
        }
    }
}

#[test]
fn readme_of_a_name_that_ends_in_a_separator_has_no_title() {
    let plan = create_express_boilerplate("my-app/");
    assert_eq!(content_of(&plan, "README.md"), "# \nHello World");
}

#[test]
fn add_basic_readme_puts_the_name_in_upper_case() {
    let mut plan = Vec::new();
    add_basic_readme(&mut plan, "my-app");
    assert_eq!(plan, vec![file("README.md", "# MY-APP\nHello World"), says("+ Added Basic README")]);
    let mut other = vec![says("before")];
    add_basic_readme(&mut other, "straße");
    assert_eq!(other[0], says("before"));
    assert_eq!(other[1], file("README.md", "# STRASSE\nHello World"));
}

#[test]
fn readme_content_wraps_the_title() {
    assert_eq!(readme_content("TITLE"), "# TITLE\nHello World");
    assert_eq!(readme_content(""), "# \nHello World");
}

#[test]
fn marker_file_lies_in_its_folder() {
    assert_eq!(marker_file("app/models"), "app/models/.gitkeep");
}

#[test]
fn folders_are_made_in_the_order_given() {
    let mut plan = Vec::new();
    make_folder_structure(&mut plan, &["b", "a"]);
    assert_eq!(
        plan,
        vec![
            Step::MakeFolder("b".to_string()),
            Step::MakeFolder("a".to_string()),
            says("+ Created the Folders Structure")
        ]
    );
}

#[test]
fn markers_are_written_in_the_order_given() {
    let mut plan = vec![says("before")];
    keep_folders(&mut plan, &["x", "y/z"]);
    assert_eq!(plan, vec![says("before"), file("x/.gitkeep", ""), file("y/z/.gitkeep", "")]);
}

#[test]
fn scripts_are_handed_to_the_patch_in_the_order_given() {
    let mut plan = Vec::new();
    add_npm_scripts(&mut plan, &["one", "two"]);
    assert_eq!(
        plan[0],
        Step::PatchScripts {
            manifest: "package.json".to_string(),
            scripts: vec!["one".to_string(), "two".to_string()]
        }
    );
    assert_eq!(plan[1], says("+ Added The Necessary Scripts to package.json"));
}

#[test]
fn installs_are_detached_and_keep_the_order_of_the_dependencies() {
    let mut plan = Vec::new();
    install_global_dependencies_npm(&mut plan, &["a", "b"]);
    install_dev_dependencies_npm(&mut plan, &["c"]);
    install_dependencies_npm(&mut plan, &[]);
    assert_eq!(
        plan,
        vec![
            command("npm", &["i", "-g", "a", "b"], Mode::Detached),
            says("+ Installed the Global Dependencies"),
            command("npm", &["i", "-D", "c"], Mode::Detached),
            says("+ Installed the DEV Dependencies"),
            command("npm", &["i"], Mode::Detached),
            says("+ Installed the Dependencies"),
        ]
    );
}

#[test]
fn only_the_root_and_the_files_must_succeed() {
    assert!(failure_is_fatal(&Step::MakeRoot("x".to_string())));
    assert!(failure_is_fatal(&file("a", "b")));
    assert!(failure_is_fatal(&Step::PatchScripts {
        manifest: "package.json".to_string(),
        scripts: Vec::new()
    }));
    assert!(!failure_is_fatal(&Step::ChangeDir("x".to_string())));
    assert!(!failure_is_fatal(&Step::MakeFolder("x".to_string())));
    assert!(!failure_is_fatal(&command("git", &["init"], Mode::Synchronous)));
    assert!(!failure_is_fatal(&command("npm", &["i"], Mode::Detached)));
    assert!(!failure_is_fatal(&says("x")));
}

#[test]
fn manifest_is_made_before_it_is_patched() {
    let plan = create_express_boilerplate("my-app");
    let made = plan
        .iter()
        .position(|s| *s == command("npm", &["init", "-y"], Mode::Synchronous))
        .unwrap();
    let patched = plan.iter().position(|s| matches!(s, Step::PatchScripts { .. })).unwrap();
    assert!(made < patched);
}

#[test]
fn folders_are_made_before_files_are_written_into_them() {
    let plan = create_express_boilerplate("my-app");
    for (at, step) in plan.iter().enumerate() {
        if let Step::Write(file) = step {
            if let Some(cut) = file.path.rfind('/') {
                let folder = Step::MakeFolder(file.path[..cut].to_string());
                let made = plan.iter().position(|s| *s == folder).unwrap();
                assert!(made < at);
            }
        }
    }
}
