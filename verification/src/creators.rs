//! The plans: where a project is placed, how it is bootstrapped, and the
//! ordered steps that make the skeleton of an Express server.
//!
//! Each function appends its steps to a plan and says, over the models of
//! the steps, exactly which ones and in which order.

use vstd::prelude::*;
use vstd::string::*;
use crate::names::{extract_project_name, last_segment};
use crate::steps::{
    invoke, make_folder, plan_of, push_step, report, write_file, CommandModel, FileModel, Mode,
    Step, StepModel,
};
use crate::templates::{
    marker_file, marker_path, readme_content, readme_text, ENTRY_FILE, ENTRY_TEXT,
    ENVIRONMENT_FILE, ENVIRONMENT_TEXT, FORMATTER_FILE, FORMATTER_TEXT, IGNORE_FILE, IGNORE_TEXT,
    MANIFEST_FILE, README_FILE, ROUTER_FILE, ROUTER_TEXT, TRANSPILER_FILE, TRANSPILER_TEXT,
    UTILS_FILE, UTILS_TEXT,
};
use crate::text::{owned_all, same_text, slice_texts, texts, upper_case, uppercase_of};

verus! {

/// The location that stands for the directory the process is already in.
pub const CURRENT_DIRECTORY: &'static str = ".";

/// The package manager.
pub const PACKAGE_MANAGER: &'static str = "npm";

/// The steps that place a project: none for the current directory, else the
/// directory is created and entered.
pub open spec fn placement_plan(location: Seq<char>) -> Seq<StepModel> {
    if location == CURRENT_DIRECTORY@ {
        Seq::empty()
    } else {
        seq![StepModel::MakeRoot(location), StepModel::ChangeDir(location)]
    }
}

/// Version control is initialised, and told to leave the dependencies out.
pub open spec fn init_git_plan() -> Seq<StepModel> {
    seq![
        StepModel::Invoke(
            CommandModel { program: "git"@, args: seq!["init"@], mode: Mode::Synchronous },
        ),
        StepModel::Write(FileModel { path: IGNORE_FILE@, content: IGNORE_TEXT@ }),
        StepModel::Report("+ Initiated a git repository"@),
    ]
}

/// The package manager writes the manifest, asking nothing.
pub open spec fn init_node_project_plan() -> Seq<StepModel> {
    seq![
        StepModel::Invoke(
            CommandModel {
                program: PACKAGE_MANAGER@,
                args: seq!["init"@, "-y"@],
                mode: Mode::Synchronous,
            },
        ),
        StepModel::Report("+ Initiated a Node Project"@),
    ]
}

/// Each folder is created, in the order given.
pub open spec fn folder_structure_plan(folders: Seq<Seq<char>>) -> Seq<StepModel> {
    Seq::new(folders.len(), |i: int| StepModel::MakeFolder(folders[i])).push(
        StepModel::Report("+ Created the Folders Structure"@),
    )
}

/// The script lines are patched into the manifest.
pub open spec fn npm_scripts_plan(scripts: Seq<Seq<char>>) -> Seq<StepModel> {
    seq![
        StepModel::PatchScripts { manifest: MANIFEST_FILE@, scripts: scripts },
        StepModel::Report("+ Added The Necessary Scripts to package.json"@),
    ]
}

/// The entry point is written.
pub open spec fn express_index_plan() -> Seq<StepModel> {
    seq![
        StepModel::Write(FileModel { path: ENTRY_FILE@, content: ENTRY_TEXT@ }),
        StepModel::Report("+ Generated index.js"@),
    ]
}

/// The formatter's configuration is written.
pub open spec fn prettier_config_plan() -> Seq<StepModel> {
    seq![
        StepModel::Write(FileModel { path: FORMATTER_FILE@, content: FORMATTER_TEXT@ }),
        StepModel::Report("+ Added Prettier Config"@),
    ]
}

/// The environment file is written.
pub open spec fn env_file_plan() -> Seq<StepModel> {
    seq![
        StepModel::Write(FileModel { path: ENVIRONMENT_FILE@, content: ENVIRONMENT_TEXT@ }),
        StepModel::Report("+ Added .ENV File"@),
    ]
}

/// The transpiler's configuration is written.
pub open spec fn babel_config_plan() -> Seq<StepModel> {
    seq![
        StepModel::Write(FileModel { path: TRANSPILER_FILE@, content: TRANSPILER_TEXT@ }),
        StepModel::Report("+ Added Babel Config"@),
    ]
}

/// The README is written, its title the given name in upper case.
pub open spec fn readme_plan(name: Seq<char>) -> Seq<StepModel> {
    seq![
        StepModel::Write(
            FileModel { path: README_FILE@, content: readme_text(uppercase_of(name)) },
        ),
        StepModel::Report("+ Added Basic README"@),
    ]
}

/// An install by the package manager, which nobody waits for: `flags` first,
/// then the dependencies in the order given.
pub open spec fn install_step(flags: Seq<Seq<char>>, dependencies: Seq<Seq<char>>) -> StepModel {
    StepModel::Invoke(
        CommandModel {
            program: PACKAGE_MANAGER@,
            args: flags + dependencies,
            mode: Mode::Detached,
        },
    )
}

/// The dependencies are installed for every project of the machine.
pub open spec fn install_global_plan(dependencies: Seq<Seq<char>>) -> Seq<StepModel> {
    seq![
        install_step(seq!["i"@, "-g"@], dependencies),
        StepModel::Report("+ Installed the Global Dependencies"@),
    ]
}

/// The dependencies are installed for development.
pub open spec fn install_dev_plan(dependencies: Seq<Seq<char>>) -> Seq<StepModel> {
    seq![
        install_step(seq!["i"@, "-D"@], dependencies),
        StepModel::Report("+ Installed the DEV Dependencies"@),
    ]
}

/// The dependencies are installed for the running server.
pub open spec fn install_plan(dependencies: Seq<Seq<char>>) -> Seq<StepModel> {
    seq![
        install_step(seq!["i"@], dependencies),
        StepModel::Report("+ Installed the Dependencies"@),
    ]
}

/// The router's entry file is written.
pub open spec fn routes_index_plan() -> Seq<StepModel> {
    seq![StepModel::Write(FileModel { path: ROUTER_FILE@, content: ROUTER_TEXT@ })]
}

/// An empty marker file is written into each folder, in the order given.
pub open spec fn keep_folders_plan(folders: Seq<Seq<char>>) -> Seq<StepModel> {
    Seq::new(
        folders.len(),
        |i: int|
            StepModel::Write(
                FileModel { path: marker_path(folders[i]), content: Seq::<char>::empty() },
            ),
    )
}

/// The module of shared helpers is written.
pub open spec fn global_utils_plan() -> Seq<StepModel> {
    seq![StepModel::Write(FileModel { path: UTILS_FILE@, content: UTILS_TEXT@ })]
}

/// The folders of the skeleton, parents first.
pub open spec fn express_folders() -> Seq<Seq<char>> {
    seq![
        "app"@,
        "app/models"@,
        "app/services"@,
        "app/routes"@,
        "app/controllers"@,
        "app/utils"@,
    ]
}

/// The script lines of the skeleton, as they stand in the manifest.
pub open spec fn express_scripts() -> Seq<Seq<char>> {
    seq![
        "\t\t\"dev\": \"nodemon --exec babel-node index.js\","@,
        "\t\t\"run\": \"babel-node index.js\""@,
    ]
}

/// The tools that every project of the machine shares.
pub open spec fn express_global_dependencies() -> Seq<Seq<char>> {
    seq!["nodemon"@]
}

/// The tools of development.
pub open spec fn express_dev_dependencies() -> Seq<Seq<char>> {
    seq!["@babel/core"@, "@babel/node"@, "@babel/preset-env"@]
}

/// The libraries of the running server.
pub open spec fn express_dependencies() -> Seq<Seq<char>> {
    seq!["body-parser"@, "cors"@, "dotenv"@, "express"@, "helmet"@, "lodash"@, "xss-clean"@]
}

/// The folders that would stay empty and so get a marker file.
pub open spec fn express_kept_folders() -> Seq<Seq<char>> {
    seq!["app/controllers"@, "app/routes"@, "app/services"@, "app/models"@, "app/utils"@]
}

/// How the project is bootstrapped: version control first, then the manifest.
pub open spec fn bootstrap_plan() -> Seq<StepModel> {
    init_git_plan() + init_node_project_plan()
}

/// The skeleton itself, step by step: the folders; the scripts in the
/// manifest; the entry point; the three configuration files; the README; the
/// three installs; the router; the marker files; the shared helpers.
pub open spec fn scaffold_plan(project_name: Seq<char>) -> Seq<StepModel> {
    folder_structure_plan(express_folders()) + npm_scripts_plan(express_scripts())
        + express_index_plan() + prettier_config_plan() + env_file_plan() + babel_config_plan()
        + readme_plan(last_segment(project_name)) + install_global_plan(
        express_global_dependencies(),
    ) + install_dev_plan(express_dev_dependencies()) + install_plan(express_dependencies())
        + routes_index_plan() + keep_folders_plan(express_kept_folders()) + global_utils_plan()
}

/// The whole plan of an Express project: the bootstrap, then the skeleton.
pub open spec fn express_plan(project_name: Seq<char>) -> Seq<StepModel> {
    bootstrap_plan() + scaffold_plan(project_name)
}

/// The plan of a React project: nothing but a line of progress.
pub open spec fn react_plan() -> Seq<StepModel> {
    seq![StepModel::Report("Create a react boilerplate"@)]
}

/// The plan of a React project in TypeScript: nothing but a line of progress.
pub open spec fn react_ts_plan() -> Seq<StepModel> {
    seq![StepModel::Report("Create a react as ts boilerplate"@)]
}

/// Places the project: for the current directory there is nothing to do;
/// any other location is created, with its parents, and entered.
pub fn place_me_at(location: &str) -> (plan: Vec<Step>)
    ensures
        plan_of(plan@) == placement_plan(location@),
{
    let mut plan: Vec<Step> = Vec::new();
    if !same_text(location, CURRENT_DIRECTORY) {
        push_step(&mut plan, Step::MakeRoot(String::from_str(location)));
        push_step(&mut plan, Step::ChangeDir(String::from_str(location)));
    }
    assert(plan_of(plan@) =~= placement_plan(location@));
    plan
}

/// Plans the start of version control.
pub fn init_git(plan: &mut Vec<Step>)
    ensures
        plan_of(final(plan)@) == plan_of(old(plan)@) + init_git_plan(),
{
    let args = owned_all(&["init"]);
    assert(texts(args@) =~= seq!["init"@]);
    push_step(plan, invoke("git", args, Mode::Synchronous));
    push_step(plan, write_file(String::from_str(IGNORE_FILE), String::from_str(IGNORE_TEXT)));
    push_step(plan, report("+ Initiated a git repository"));
    assert(plan_of(plan@) =~= plan_of(old(plan)@) + init_git_plan());
}

/// Plans the making of the manifest.
pub fn init_node_project(plan: &mut Vec<Step>)
    ensures
        plan_of(final(plan)@) == plan_of(old(plan)@) + init_node_project_plan(),
{
    let args = owned_all(&["init", "-y"]);
    assert(texts(args@) =~= seq!["init"@, "-y"@]);
    push_step(plan, invoke(PACKAGE_MANAGER, args, Mode::Synchronous));
    push_step(plan, report("+ Initiated a Node Project"));
    assert(plan_of(plan@) =~= plan_of(old(plan)@) + init_node_project_plan());
}

/// Plans the folders of the skeleton.
pub fn make_folder_structure(plan: &mut Vec<Step>, folders: &[&str])
    ensures
        plan_of(final(plan)@) == plan_of(old(plan)@) + folder_structure_plan(
            slice_texts(folders@),
        ),
{
    let ghost made = |n: int|
        Seq::new(n as nat, |i: int| StepModel::MakeFolder(slice_texts(folders@)[i]));
    let mut i: usize = 0;
    assert(plan_of(plan@) =~= plan_of(old(plan)@) + made(0));
    while i < folders.len()
        invariant
            i <= folders.len(),
            made == |n: int|
                Seq::new(n as nat, |i: int| StepModel::MakeFolder(slice_texts(folders@)[i])),
            plan_of(plan@) == plan_of(old(plan)@) + made(i as int),
        decreases folders.len() - i,
    {
        push_step(plan, make_folder(folders[i]));
        assert(plan_of(plan@) =~= plan_of(old(plan)@) + made(i + 1));
        i = i + 1;
    }
    push_step(plan, report("+ Created the Folders Structure"));
    assert(plan_of(plan@) =~= plan_of(old(plan)@) + folder_structure_plan(
        slice_texts(folders@),
    ));
}

/// Plans the patch of the manifest with the given script lines.
pub fn add_npm_scripts(plan: &mut Vec<Step>, scripts: &[&str])
    ensures
        plan_of(final(plan)@) == plan_of(old(plan)@) + npm_scripts_plan(slice_texts(scripts@)),
{
    let lines = owned_all(scripts);
    push_step(
        plan,
        Step::PatchScripts { manifest: String::from_str(MANIFEST_FILE), scripts: lines },
    );
    push_step(plan, report("+ Added The Necessary Scripts to package.json"));
    assert(plan_of(plan@) =~= plan_of(old(plan)@) + npm_scripts_plan(slice_texts(scripts@)));
}

/// Plans the entry point.
pub fn add_express_index_file(plan: &mut Vec<Step>)
    ensures
        plan_of(final(plan)@) == plan_of(old(plan)@) + express_index_plan(),
{
    push_step(plan, write_file(String::from_str(ENTRY_FILE), String::from_str(ENTRY_TEXT)));
    push_step(plan, report("+ Generated index.js"));
    assert(plan_of(plan@) =~= plan_of(old(plan)@) + express_index_plan());
}

/// Plans the formatter's configuration.
pub fn add_prettier_config(plan: &mut Vec<Step>)
    ensures
        plan_of(final(plan)@) == plan_of(old(plan)@) + prettier_config_plan(),
{
    push_step(
        plan,
        write_file(String::from_str(FORMATTER_FILE), String::from_str(FORMATTER_TEXT)),
    );
    push_step(plan, report("+ Added Prettier Config"));
    assert(plan_of(plan@) =~= plan_of(old(plan)@) + prettier_config_plan());
}

/// Plans the environment file.
pub fn add_env_file(plan: &mut Vec<Step>)
    ensures
        plan_of(final(plan)@) == plan_of(old(plan)@) + env_file_plan(),
{
    push_step(
        plan,
        write_file(String::from_str(ENVIRONMENT_FILE), String::from_str(ENVIRONMENT_TEXT)),
    );
    push_step(plan, report("+ Added .ENV File"));
    assert(plan_of(plan@) =~= plan_of(old(plan)@) + env_file_plan());
}

/// Plans the transpiler's configuration.
pub fn add_babel_config(plan: &mut Vec<Step>)
    ensures
        plan_of(final(plan)@) == plan_of(old(plan)@) + babel_config_plan(),
{
    push_step(
        plan,
        write_file(String::from_str(TRANSPILER_FILE), String::from_str(TRANSPILER_TEXT)),
    );
    push_step(plan, report("+ Added Babel Config"));
    assert(plan_of(plan@) =~= plan_of(old(plan)@) + babel_config_plan());
}

/// Plans the README of a project shown under `project_name`.
pub fn add_basic_readme(plan: &mut Vec<Step>, project_name: &str)
    ensures
        plan_of(final(plan)@) == plan_of(old(plan)@) + readme_plan(project_name@),
{
    let title = upper_case(project_name);
    push_step(plan, write_file(String::from_str(README_FILE), readme_content(title.as_str())));
    push_step(plan, report("+ Added Basic README"));
    assert(plan_of(plan@) =~= plan_of(old(plan)@) + readme_plan(project_name@));
}

/// The arguments of an install: the flags, then the dependencies.
fn install_args(flags: &[&str], dependencies: &[&str]) -> (args: Vec<String>)
    ensures
        texts(args@) == slice_texts(flags@) + slice_texts(dependencies@),
{
    let mut args = owned_all(flags);
    let mut rest = owned_all(dependencies);
    let ghost first = args@;
    let ghost second = rest@;
    args.append(&mut rest);
    assert(texts(args@) =~= texts(first) + texts(second));
    args
}

/// Plans the install of tools shared by every project of the machine.
pub fn install_global_dependencies_npm(plan: &mut Vec<Step>, dependencies: &[&str])
    ensures
        plan_of(final(plan)@) == plan_of(old(plan)@) + install_global_plan(
            slice_texts(dependencies@),
        ),
{
    let flags = ["i", "-g"];
    let args = install_args(&flags, dependencies);
    assert(slice_texts(flags@) =~= seq!["i"@, "-g"@]);
    push_step(plan, invoke(PACKAGE_MANAGER, args, Mode::Detached));
    push_step(plan, report("+ Installed the Global Dependencies"));
    assert(plan_of(plan@) =~= plan_of(old(plan)@) + install_global_plan(
        slice_texts(dependencies@),
    ));
}

/// Plans the install of the tools of development.
pub fn install_dev_dependencies_npm(plan: &mut Vec<Step>, dependencies: &[&str])
    ensures
        plan_of(final(plan)@) == plan_of(old(plan)@) + install_dev_plan(
            slice_texts(dependencies@),
        ),
{
    let flags = ["i", "-D"];
    let args = install_args(&flags, dependencies);
    assert(slice_texts(flags@) =~= seq!["i"@, "-D"@]);
    push_step(plan, invoke(PACKAGE_MANAGER, args, Mode::Detached));
    push_step(plan, report("+ Installed the DEV Dependencies"));
    assert(plan_of(plan@) =~= plan_of(old(plan)@) + install_dev_plan(
        slice_texts(dependencies@),
    ));
}

/// Plans the install of the libraries of the running server.
pub fn install_dependencies_npm(plan: &mut Vec<Step>, dependencies: &[&str])
    ensures
        plan_of(final(plan)@) == plan_of(old(plan)@) + install_plan(slice_texts(dependencies@)),
{
    let flags = ["i"];
    let args = install_args(&flags, dependencies);
    assert(slice_texts(flags@) =~= seq!["i"@]);
    push_step(plan, invoke(PACKAGE_MANAGER, args, Mode::Detached));
    push_step(plan, report("+ Installed the Dependencies"));
    assert(plan_of(plan@) =~= plan_of(old(plan)@) + install_plan(slice_texts(dependencies@)));
}

/// Plans the router's entry file.
pub fn add_routes_index_file(plan: &mut Vec<Step>)
    ensures
        plan_of(final(plan)@) == plan_of(old(plan)@) + routes_index_plan(),
{
    push_step(plan, write_file(String::from_str(ROUTER_FILE), String::from_str(ROUTER_TEXT)));
    assert(plan_of(plan@) =~= plan_of(old(plan)@) + routes_index_plan());
}

/// Plans a marker file in each of the folders.
pub fn keep_folders(plan: &mut Vec<Step>, folders: &[&str])
    ensures
        plan_of(final(plan)@) == plan_of(old(plan)@) + keep_folders_plan(slice_texts(folders@)),
{
    let mut i: usize = 0;
    assert(plan_of(plan@) =~= plan_of(old(plan)@) + keep_folders_plan(
        slice_texts(folders@.subrange(0, 0)),
    ));
    while i < folders.len()
        invariant
            i <= folders.len(),
            plan_of(plan@) == plan_of(old(plan)@) + keep_folders_plan(
                slice_texts(folders@.subrange(0, i as int)),
            ),
        decreases folders.len() - i,
    {
        push_step(plan, write_file(marker_file(folders[i]), String::new()));
        assert(plan_of(plan@) =~= plan_of(old(plan)@) + keep_folders_plan(
            slice_texts(folders@.subrange(0, i + 1)),
        ));
        i = i + 1;
    }
    assert(folders@.subrange(0, i as int) =~= folders@);
}

/// Plans the module of shared helpers.
pub fn add_global_utils_express(plan: &mut Vec<Step>)
    ensures
        plan_of(final(plan)@) == plan_of(old(plan)@) + global_utils_plan(),
{
    push_step(plan, write_file(String::from_str(UTILS_FILE), String::from_str(UTILS_TEXT)));
    assert(plan_of(plan@) =~= plan_of(old(plan)@) + global_utils_plan());
}

/// Plans an Express project called `project_name`: the bootstrap, then the
/// nine steps of the skeleton, in their fixed order. Only the README depends
/// on the name.
pub fn create_express_boilerplate(project_name: &str) -> (plan: Vec<Step>)
    ensures
        plan_of(plan@) == express_plan(project_name@),
{
    let mut plan: Vec<Step> = Vec::new();
    assert(plan_of(plan@) =~= Seq::<StepModel>::empty());
    init_git(&mut plan);
    init_node_project(&mut plan);
    let folders = ["app", "app/models", "app/services", "app/routes", "app/controllers", "app/utils"];
    assert(slice_texts(folders@) =~= express_folders());
    make_folder_structure(&mut plan, &folders);
    let scripts = [
        "\t\t\"dev\": \"nodemon --exec babel-node index.js\",",
        "\t\t\"run\": \"babel-node index.js\"",
    ];
    assert(slice_texts(scripts@) =~= express_scripts());
    add_npm_scripts(&mut plan, &scripts);
    add_express_index_file(&mut plan);
    add_prettier_config(&mut plan);
    add_env_file(&mut plan);
    add_babel_config(&mut plan);
    add_basic_readme(&mut plan, extract_project_name(project_name));
    let shared = ["nodemon"];
    assert(slice_texts(shared@) =~= express_global_dependencies());
    install_global_dependencies_npm(&mut plan, &shared);
    let tools = ["@babel/core", "@babel/node", "@babel/preset-env"];
    assert(slice_texts(tools@) =~= express_dev_dependencies());
    install_dev_dependencies_npm(&mut plan, &tools);
    let libraries = ["body-parser", "cors", "dotenv", "express", "helmet", "lodash", "xss-clean"];
    assert(slice_texts(libraries@) =~= express_dependencies());
    install_dependencies_npm(&mut plan, &libraries);
    add_routes_index_file(&mut plan);
    let kept = ["app/controllers", "app/routes", "app/services", "app/models", "app/utils"];
    assert(slice_texts(kept@) =~= express_kept_folders());
    keep_folders(&mut plan, &kept);
    add_global_utils_express(&mut plan);
    assert(plan_of(plan@) =~= express_plan(project_name@));
    plan
}

/// Plans a React project: the variant is a stub and only says so.
pub fn create_react_boilerplate() -> (plan: Vec<Step>)
    ensures
        plan_of(plan@) == react_plan(),
{
    let mut plan: Vec<Step> = Vec::new();
    push_step(&mut plan, report("Create a react boilerplate"));
    assert(plan_of(plan@) =~= react_plan());
    plan
}

/// Plans a React project in TypeScript: the variant is a stub and only says so.
pub fn create_react_ts_boilerplate() -> (plan: Vec<Step>)
    ensures
        plan_of(plan@) == react_ts_plan(),
{
    let mut plan: Vec<Step> = Vec::new();
    push_step(&mut plan, report("Create a react as ts boilerplate"));
    assert(plan_of(plan@) =~= react_ts_plan());
    plan
}

} // verus!
