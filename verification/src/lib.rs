//! Plans the skeleton of a new backend project: where it is placed, which
//! tools are invoked, which files are written, and how the generated package
//! manifest is patched. The library decides; a driver performs the steps.

use vstd::prelude::*;
use vstd::string::*;
use crate::creators::{
    create_express_boilerplate, create_react_boilerplate, create_react_ts_boilerplate,
    express_plan, place_me_at, placement_plan, react_plan, react_ts_plan,
};
use crate::steps::{plan_of, push_step, report, Step, StepModel};
use crate::text::same_text;

pub mod creators;
pub mod manifest;
pub mod names;
pub mod order;
pub mod steps;
pub mod templates;
pub mod text;

verus! {

/// The kind of project that gets a full skeleton.
pub const EXPRESS: &'static str = "express";

/// A kind of project that is only announced.
pub const REACT: &'static str = "react";

/// A kind of project that is only announced.
pub const REACT_TS: &'static str = "react-ts";

/// What follows the placement, by kind of project. A kind that is not known
/// gets a line that says so, and nothing else.
pub open spec fn variant_plan(kind: Seq<char>, project_name: Seq<char>) -> Seq<StepModel> {
    if kind == EXPRESS@ {
        express_plan(project_name)
    } else if kind == REACT@ {
        react_plan()
    } else if kind == REACT_TS@ {
        react_ts_plan()
    } else {
        seq![StepModel::Report("Ah?.."@)]
    }
}

/// The plan of a whole run: the project is placed, then built as its kind asks.
pub open spec fn boilerplate_plan(
    kind: Seq<char>,
    location: Seq<char>,
    project_name: Seq<char>,
) -> Seq<StepModel> {
    placement_plan(location) + variant_plan(kind, project_name)
}

/// Plans a run: first the placement at `boilerplate_location`, then the
/// steps of the kind `boilerplate_type` for a project called `project_name`.
pub fn create_boilerplate(
    boilerplate_type: &str,
    boilerplate_location: &str,
    project_name: &str,
) -> (plan: Vec<Step>)
    ensures
        plan_of(plan@) == boilerplate_plan(
            boilerplate_type@,
            boilerplate_location@,
            project_name@,
        ),
{
    let mut plan = place_me_at(boilerplate_location);
    let mut rest = if same_text(boilerplate_type, EXPRESS) {
        create_express_boilerplate(project_name)
    } else if same_text(boilerplate_type, REACT) {
        create_react_boilerplate()
    } else if same_text(boilerplate_type, REACT_TS) {
        create_react_ts_boilerplate()
    } else {
        let mut unknown: Vec<Step> = Vec::new();
        push_step(&mut unknown, report("Ah?.."));
        assert(plan_of(unknown@) =~= seq![StepModel::Report("Ah?.."@)]);
        unknown
    };
    let ghost placed = plan@;
    let ghost built = rest@;
    plan.append(&mut rest);
    assert(plan_of(plan@) =~= plan_of(placed) + plan_of(built));
    plan
}

} // verus!
