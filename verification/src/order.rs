//! What holds of every plan: where its steps work, what they rely on, and
//! what in them depends on the project's name.

use vstd::prelude::*;
use vstd::string::*;
use crate::creators::{
    babel_config_plan, bootstrap_plan, env_file_plan, express_dependencies,
    express_dev_dependencies, express_folders, express_global_dependencies, express_index_plan,
    express_kept_folders, express_plan, express_scripts, folder_structure_plan,
    global_utils_plan, init_git_plan, init_node_project_plan, install_dev_plan,
    install_global_plan, install_plan, keep_folders_plan, npm_scripts_plan,
    prettier_config_plan, react_plan, react_ts_plan, readme_plan, routes_index_plan,
    scaffold_plan, CURRENT_DIRECTORY,
};
use crate::names::{last_segment, last_separator, lemma_last_separator_is};
use crate::steps::{FileModel, StepModel};
use crate::templates::{marker_path, readme_text, README_FILE};
use crate::text::uppercase_of;
use crate::{boilerplate_plan, variant_plan};

verus! {

/// Whether a path is resolved against the working directory and stays
/// below it: it is not empty, does not start at the root, and nowhere holds
/// two dots in a row, so no segment of it names a parent.
pub open spec fn stays_below(path: Seq<char>) -> bool {
    &&& path.len() > 0
    &&& path[0] != '/'
    &&& forall|i: int|
        0 <= i && i + 1 < path.len() ==> !(#[trigger] path[i] == '.' && path[i + 1] == '.')
}

/// The folder in which the file at `path` lies: what stands before the last
/// separator of the path. A path without a separator lies in no folder.
pub open spec fn folder_of(path: Seq<char>) -> Option<Seq<char>> {
    if last_separator(path) < 0 {
        None
    } else {
        Some(path.subrange(0, last_separator(path)))
    }
}

/// Whether a step works where the process stands: it leaves the working
/// directory as it is, and the folder or file it touches lies below it.
pub open spec fn works_in_place(step: StepModel) -> bool {
    match step {
        StepModel::MakeRoot(_) => false,
        StepModel::ChangeDir(_) => false,
        StepModel::MakeFolder(path) => stays_below(path),
        StepModel::Invoke(_) => true,
        StepModel::Write(file) => stays_below(file.path),
        StepModel::PatchScripts { manifest, scripts } => stays_below(manifest),
        StepModel::Report(_) => true,
    }
}

/// Whether a step writes, if it writes into a folder at all, into one of the
/// folders of the skeleton.
pub open spec fn writes_into_skeleton(step: StepModel) -> bool {
    step matches StepModel::Write(file) ==> (folder_of(file.path) matches Some(folder)
        ==> express_folders().contains(folder))
}

/// Whether every step of a plan works where the process stands.
pub open spec fn all_in_place(plan: Seq<StepModel>) -> bool {
    forall|i: int| 0 <= i < plan.len() ==> works_in_place(#[trigger] plan[i])
}

/// Whether every step of a plan works where the process stands and writes
/// into no folder but those of the skeleton.
pub open spec fn all_fit(plan: Seq<StepModel>) -> bool {
    forall|i: int|
        0 <= i < plan.len() ==> works_in_place(#[trigger] plan[i]) && writes_into_skeleton(
            plan[i],
        )
}

proof fn lemma_all_fit_concat(first: Seq<StepModel>, second: Seq<StepModel>)
    requires
        all_fit(first),
        all_fit(second),
    ensures
        all_fit(first + second),
{
    assert forall|i: int| 0 <= i < (first + second).len() implies works_in_place(
        #[trigger] (first + second)[i],
    ) && writes_into_skeleton((first + second)[i]) by {
        if i < first.len() {
            assert((first + second)[i] == first[i]);
        } else {
            assert((first + second)[i] == second[i - first.len()]);
        }
    }
}

/// The six folders, as texts that can be compared.
proof fn lemma_folders_revealed()
    ensures
        express_folders().len() == 6,
        express_folders()[0] == "app"@,
        express_folders()[1] == "app/models"@,
        express_folders()[2] == "app/services"@,
        express_folders()[3] == "app/routes"@,
        express_folders()[4] == "app/controllers"@,
        express_folders()[5] == "app/utils"@,
        forall|k: int| 0 <= k < 6 ==> stays_below(#[trigger] express_folders()[k]),
        forall|k: int|
            0 <= k < 6 ==> stays_below(marker_path(#[trigger] express_folders()[k])),
        forall|k: int|
            0 <= k < 6 ==> folder_of(marker_path(#[trigger] express_folders()[k])) == Some(
                express_folders()[k],
            ),
{
    reveal_strlit("app");
    reveal_strlit("app/models");
    reveal_strlit("app/services");
    reveal_strlit("app/routes");
    reveal_strlit("app/controllers");
    reveal_strlit("app/utils");
    reveal_strlit("/.gitkeep");
    assert forall|k: int| 0 <= k < 6 implies folder_of(
        marker_path(#[trigger] express_folders()[k]),
    ) == Some(express_folders()[k]) by {
        let folder = express_folders()[k];
        let path = marker_path(folder);
        lemma_last_separator_is(path, folder.len() as int);
        assert(path.subrange(0, folder.len() as int) =~= folder);
    }
}

proof fn lemma_bootstrap_fits()
    ensures
        all_fit(bootstrap_plan()),
{
    reveal_strlit(".gitignore");
    lemma_last_separator_is(".gitignore"@, -1);
    assert(all_fit(init_git_plan()));
    assert(all_fit(init_node_project_plan()));
    lemma_all_fit_concat(init_git_plan(), init_node_project_plan());
}

proof fn lemma_folders_fit()
    ensures
        all_fit(folder_structure_plan(express_folders())),
        all_fit(keep_folders_plan(express_kept_folders())),
{
    lemma_folders_revealed();
    let kept = express_kept_folders();
    assert(kept[0] == express_folders()[4]);
    assert(kept[1] == express_folders()[3]);
    assert(kept[2] == express_folders()[2]);
    assert(kept[3] == express_folders()[1]);
    assert(kept[4] == express_folders()[5]);
}

proof fn lemma_files_fit(name: Seq<char>)
    ensures
        all_fit(npm_scripts_plan(express_scripts())),
        all_fit(express_index_plan()),
        all_fit(prettier_config_plan()),
        all_fit(env_file_plan()),
        all_fit(babel_config_plan()),
        all_fit(readme_plan(name)),
        all_fit(routes_index_plan()),
        all_fit(global_utils_plan()),
{
    lemma_folders_revealed();
    reveal_strlit("app");
    reveal_strlit("app/routes");
    reveal_strlit("app/utils");
    reveal_strlit("package.json");
    reveal_strlit("app/index.js");
    reveal_strlit(".prettierrc");
    reveal_strlit(".env");
    reveal_strlit(".babelrc");
    reveal_strlit("README.md");
    reveal_strlit("app/routes/index.js");
    reveal_strlit("app/utils/global.utils.js");
    lemma_last_separator_is("app/index.js"@, 3);
    assert("app/index.js"@.subrange(0, 3) =~= express_folders()[0]);
    lemma_last_separator_is(".prettierrc"@, -1);
    lemma_last_separator_is(".env"@, -1);
    lemma_last_separator_is(".babelrc"@, -1);
    lemma_last_separator_is("README.md"@, -1);
    lemma_last_separator_is("app/routes/index.js"@, 10);
    assert("app/routes/index.js"@.subrange(0, 10) =~= express_folders()[3]);
    lemma_last_separator_is("app/utils/global.utils.js"@, 9);
    assert("app/utils/global.utils.js"@.subrange(0, 9) =~= express_folders()[5]);
}

proof fn lemma_scaffold_fits(name: Seq<char>)
    ensures
        all_fit(scaffold_plan(name)),
{
    let title = last_segment(name);
    lemma_folders_fit();
    lemma_files_fit(title);
    let mut plan = folder_structure_plan(express_folders());
    lemma_all_fit_concat(plan, npm_scripts_plan(express_scripts()));
    plan = plan + npm_scripts_plan(express_scripts());
    lemma_all_fit_concat(plan, express_index_plan());
    plan = plan + express_index_plan();
    lemma_all_fit_concat(plan, prettier_config_plan());
    plan = plan + prettier_config_plan();
    lemma_all_fit_concat(plan, env_file_plan());
    plan = plan + env_file_plan();
    lemma_all_fit_concat(plan, babel_config_plan());
    plan = plan + babel_config_plan();
    lemma_all_fit_concat(plan, readme_plan(title));
    plan = plan + readme_plan(title);
    lemma_all_fit_concat(plan, install_global_plan(express_global_dependencies()));
    plan = plan + install_global_plan(express_global_dependencies());
    lemma_all_fit_concat(plan, install_dev_plan(express_dev_dependencies()));
    plan = plan + install_dev_plan(express_dev_dependencies());
    lemma_all_fit_concat(plan, install_plan(express_dependencies()));
    plan = plan + install_plan(express_dependencies());
    lemma_all_fit_concat(plan, routes_index_plan());
    plan = plan + routes_index_plan();
    lemma_all_fit_concat(plan, keep_folders_plan(express_kept_folders()));
    plan = plan + keep_folders_plan(express_kept_folders());
    lemma_all_fit_concat(plan, global_utils_plan());
}

/// The placement comes first, and what follows stays in place. Where the
/// location is not the current directory, the plan of a run opens with the
/// creation of that directory and the change into it. Whatever the location,
/// no later step changes the working directory, and every folder and file
/// that a later step touches lies below it.
pub proof fn law_steps_follow_placement(
    kind: Seq<char>,
    location: Seq<char>,
    project_name: Seq<char>,
)
    ensures
        location != CURRENT_DIRECTORY@ ==> boilerplate_plan(kind, location, project_name) == seq![
            StepModel::MakeRoot(location),
            StepModel::ChangeDir(location),
        ] + variant_plan(kind, project_name),
        location == CURRENT_DIRECTORY@ ==> boilerplate_plan(kind, location, project_name)
            == variant_plan(kind, project_name),
        all_in_place(variant_plan(kind, project_name)),
{
    lemma_bootstrap_fits();
    lemma_scaffold_fits(project_name);
    lemma_all_fit_concat(bootstrap_plan(), scaffold_plan(project_name));
    assert(all_in_place(express_plan(project_name)));
    assert(all_in_place(react_plan()));
    assert(all_in_place(react_ts_plan()));
    assert(Seq::<StepModel>::empty() + variant_plan(kind, project_name) =~= variant_plan(
        kind,
        project_name,
    ));
}

/// Folders are made before files are written into them. Whenever a step of
/// an Express plan writes a file that lies in a folder, an earlier step of
/// the plan has made that very folder.
pub proof fn law_folders_are_made_before_files(project_name: Seq<char>)
    ensures
        forall|j: int|
            0 <= j < express_plan(project_name).len() ==> (#[trigger] express_plan(
                project_name,
            )[j] matches StepModel::Write(file) ==> (folder_of(file.path) matches Some(folder)
                ==> exists|i: int|
                0 <= i < j && express_plan(project_name)[i] == StepModel::MakeFolder(folder))),
{
    let plan = express_plan(project_name);
    let made = bootstrap_plan() + folder_structure_plan(express_folders());
    let rest = npm_scripts_plan(express_scripts()) + express_index_plan() + prettier_config_plan()
        + env_file_plan() + babel_config_plan() + readme_plan(last_segment(project_name))
        + install_global_plan(express_global_dependencies()) + install_dev_plan(
        express_dev_dependencies(),
    ) + install_plan(express_dependencies()) + routes_index_plan() + keep_folders_plan(
        express_kept_folders(),
    ) + global_utils_plan();
    assert(plan =~= made + rest);
    assert(made.len() == 12);
    lemma_bootstrap_fits();
    lemma_scaffold_fits(project_name);
    lemma_all_fit_concat(bootstrap_plan(), scaffold_plan(project_name));
    reveal_strlit(".gitignore");
    lemma_last_separator_is(".gitignore"@, -1);
    assert forall|j: int| 0 <= j < plan.len() implies (#[trigger] plan[j] matches StepModel::Write(
        file,
    ) ==> (folder_of(file.path) matches Some(folder) ==> exists|i: int|
        0 <= i < j && plan[i] == StepModel::MakeFolder(folder))) by {
        if let StepModel::Write(file) = plan[j] {
            if let Some(folder) = folder_of(file.path) {
                assert(works_in_place(plan[j]) && writes_into_skeleton(plan[j]));
                let k = choose|k: int|
                    0 <= k < express_folders().len() && express_folders()[k] == folder;
                assert(plan[5 + k] == StepModel::MakeFolder(folder));
                if j < 12 {
                    assert(plan[j] == made[j]);
                    assert(j == 1);
                }
            }
        }
    }
}

/// The manifest is made before it is patched. Whenever a step of an Express
/// plan patches the manifest, an earlier step has run the package manager
/// that writes it.
pub proof fn law_manifest_is_made_before_patched(project_name: Seq<char>)
    ensures
        forall|j: int|
            0 <= j < express_plan(project_name).len() && (#[trigger] express_plan(
                project_name,
            )[j] is PatchScripts) ==> exists|i: int|
                0 <= i < j && express_plan(project_name)[i] == init_node_project_plan()[0],
{
    let plan = express_plan(project_name);
    assert(plan[0] == init_git_plan()[0]);
    assert(plan[1] == init_git_plan()[1]);
    assert(plan[2] == init_git_plan()[2]);
    assert(plan[3] == init_node_project_plan()[0]);
}

/// The script lines of the skeleton hold no line feed, so each of them is
/// one line of the patched manifest.
pub proof fn law_express_scripts_are_single_lines()
    ensures
        forall|k: int, i: int|
            0 <= k < express_scripts().len() && 0 <= i < express_scripts()[k].len()
                ==> #[trigger] express_scripts()[k][i] != '\n',
{
    reveal_strlit("\t\t\"dev\": \"nodemon --exec babel-node index.js\",");
    reveal_strlit("\t\t\"run\": \"babel-node index.js\"");
}

/// Where the README stands in the plan of an Express project.
pub open spec fn readme_step() -> int {
    22
}

/// Only the README depends on the project's name. The plans of two Express
/// projects have the same steps but for the one that writes the README, and
/// the title in it is the last segment of the name, in upper case.
pub proof fn law_only_readme_depends_on_name(first: Seq<char>, second: Seq<char>)
    ensures
        express_plan(first).len() == express_plan(second).len(),
        forall|i: int|
            0 <= i < express_plan(first).len() && i != readme_step() ==> express_plan(first)[i]
                == express_plan(second)[i],
        express_plan(first)[readme_step()] == StepModel::Write(
            FileModel {
                path: README_FILE@,
                content: readme_text(uppercase_of(last_segment(first))),
            },
        ),
{
    let head = bootstrap_plan() + folder_structure_plan(express_folders()) + npm_scripts_plan(
        express_scripts(),
    ) + express_index_plan() + prettier_config_plan() + env_file_plan() + babel_config_plan();
    let tail = install_global_plan(express_global_dependencies()) + install_dev_plan(
        express_dev_dependencies(),
    ) + install_plan(express_dependencies()) + routes_index_plan() + keep_folders_plan(
        express_kept_folders(),
    ) + global_utils_plan();
    assert(head.len() == readme_step());
    assert(express_plan(first) =~= head + readme_plan(last_segment(first)) + tail);
    assert(express_plan(second) =~= head + readme_plan(last_segment(second)) + tail);
}

} // verus!
