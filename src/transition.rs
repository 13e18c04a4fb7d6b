//! Which embedded controller project a machine should run, given the
//! project it runs now and the kind of firmware that was asked for.

use vstd::prelude::*;
use crate::text::{joined, same_text};

verus! {

/// The project name that the open embedded controller firmware reports.
pub open spec fn open_project() -> Seq<char> {
    seq!['7', '6', 'e', 'c']
}

/// A rule for one model and board variant: the two projects that the
/// machine can move between, and whether the automatic choice moves it to
/// the open one.
pub struct Transition {
    /// Model name
    pub model: String,
    /// Board variant
    pub variant: u8,
    /// Open EC project, always "76ec"
    pub open: String,
    /// Proprietary EC project
    pub proprietary: String,
    /// If true, `TransitionKind::Automatic` switches to open firmware
    pub liberate: bool,
}

/// What a `Transition` says, as mathematical values.
pub struct TransitionView {
    pub model: Seq<char>,
    pub variant: u8,
    pub open: Seq<char>,
    pub proprietary: Seq<char>,
    pub liberate: bool,
}

impl View for Transition {
    type V = TransitionView;

    open spec fn view(&self) -> TransitionView {
        TransitionView {
            model: self.model@,
            variant: self.variant,
            open: self.open@,
            proprietary: self.proprietary@,
            liberate: self.liberate,
        }
    }
}

/// The rule for `model`, board variant `variant`.
pub open spec fn rule(model: Seq<char>, variant: u8, proprietary: Seq<char>, liberate: bool) -> TransitionView {
    TransitionView { model, variant, open: open_project(), proprietary, liberate }
}

/// The name `"76ec"`, as a new string.
fn open_project_name() -> (r: String)
    ensures
        r@ == open_project(),
{
    proof {
        reveal_strlit("76ec");
    }
    let r = String::from_str("76ec");
    assert(r@ =~= open_project());
    r
}

impl Transition {
    /// A rule for board variant 0 of `model`.
    pub fn new(model: &str, proprietary: &str, liberate: bool) -> (r: Transition)
        ensures
            r@ == rule(model@, 0, proprietary@, liberate),
    {
        Self::new_variant(model, 0, proprietary, liberate)
    }

    /// A rule for board variant `variant` of `model`.
    pub fn new_variant(model: &str, variant: u8, proprietary: &str, liberate: bool) -> (r: Transition)
        ensures
            r@ == rule(model@, variant, proprietary@, liberate),
    {
        Transition {
            model: String::from_str(model),
            variant,
            open: open_project_name(),
            proprietary: String::from_str(proprietary),
            liberate,
        }
    }
}

/// The rules that ship with this library, one per model and board variant.
pub open spec fn default_rules() -> Seq<TransitionView> {
    seq![
        rule("addw2"@, 0, "PBx0Dx2"@, false),
        rule("darp6"@, 0, "N150CU"@, false),
        // 17-inch 1660Ti
        rule("gaze15"@, 0, "NH5xDC"@, false),
        // 15-inch 1660Ti
        rule("gaze15"@, 1, "NH5xDC"@, false),
        // 17-inch 1650/1650Ti
        rule("gaze15"@, 2, "NH50DB"@, false),
        // 15-inch 1650/1650Ti
        rule("gaze15"@, 3, "NH50DB"@, false),
    ]
}

/// The views of a list of rules.
pub open spec fn rules_view(rules: Seq<Transition>) -> Seq<TransitionView> {
    rules.map_values(|t: Transition| t@)
}

/// The rules that ship with this library.
pub fn transitions() -> (r: Vec<Transition>)
    ensures
        rules_view(r@) == default_rules(),
{
    let mut v: Vec<Transition> = Vec::new();
    v.push(Transition::new("addw2", "PBx0Dx2", false));
    v.push(Transition::new("darp6", "N150CU", false));
    v.push(Transition::new_variant("gaze15", 0, "NH5xDC", false));
    v.push(Transition::new_variant("gaze15", 1, "NH5xDC", false));
    v.push(Transition::new_variant("gaze15", 2, "NH50DB", false));
    v.push(Transition::new_variant("gaze15", 3, "NH50DB", false));
    assert(rules_view(v@) =~= default_rules());
    v
}

/// The kind of embedded controller firmware that was asked for.
#[derive(Clone, Copy, Debug, PartialEq, Eq, Structural)]
pub enum TransitionKind {
    /// Whatever the default is
    Automatic,
    /// Open firmware, if available
    Open,
    /// Proprietary firmware, if available
    Proprietary,
}

/// The project that a machine under `r`, now on `project`, moves to.
pub open spec fn target_project(kind: TransitionKind, r: TransitionView, project: Seq<char>) -> Seq<char> {
    if project == r.open {
        match kind {
            TransitionKind::Proprietary => r.proprietary,
            _ => r.open,
        }
    } else if project == r.proprietary {
        match kind {
            TransitionKind::Automatic => if r.liberate { r.open } else { r.proprietary },
            TransitionKind::Open => r.open,
            TransitionKind::Proprietary => r.proprietary,
        }
    } else {
        project
    }
}

/// For a model that no rule covers: the project stays as it is, unless the
/// kind asked for cannot be had (`None`).
pub open spec fn fallback_project(kind: TransitionKind, project: Seq<char>) -> Option<Seq<char>> {
    match kind {
        TransitionKind::Open => if project != open_project() { None } else { Some(project) },
        TransitionKind::Proprietary => if project == open_project() { None } else { Some(project) },
        TransitionKind::Automatic => Some(project),
    }
}

/// The project that the first rule from index `i` on for `(model, variant)`
/// gives, or the fallback where there is none.
pub open spec fn resolve_from(
    kind: TransitionKind,
    rules: Seq<TransitionView>,
    i: int,
    model: Seq<char>,
    variant: u8,
    project: Seq<char>,
) -> Option<Seq<char>>
    decreases rules.len() - i,
{
    if i < 0 || i >= rules.len() {
        fallback_project(kind, project)
    } else if rules[i].model == model && rules[i].variant == variant {
        Some(target_project(kind, rules[i], project))
    } else {
        resolve_from(kind, rules, i + 1, model, variant, project)
    }
}

/// The target project under `rules`, or `None` where the model does not
/// support the kind of firmware asked for.
pub open spec fn resolve(
    kind: TransitionKind,
    rules: Seq<TransitionView>,
    model: Seq<char>,
    variant: u8,
    project: Seq<char>,
) -> Option<Seq<char>> {
    resolve_from(kind, rules, 0, model, variant, project)
}

/// The error for a model that does not support the kind of firmware asked for.
pub open spec fn unsupported_message(kind: TransitionKind, model: Seq<char>) -> Seq<char> {
    if kind == TransitionKind::Open {
        "Model '"@ + model + "' is not supported by open firmware and EC at this time"@
    } else {
        "Model '"@ + model + "' is not supported by proprietary firmware and EC at this time"@
    }
}

/// What a transition under `rules` returns: the model and target project,
/// or the message for an unsupported model.
pub open spec fn transition_result(
    kind: TransitionKind,
    rules: Seq<TransitionView>,
    model: Seq<char>,
    variant: u8,
    project: Seq<char>,
    r: Result<(String, String), String>,
) -> bool {
    match resolve(kind, rules, model, variant, project) {
        Some(target) => r matches Ok(p) && p.0@ == model && p.1@ == target,
        None => r matches Err(e) && e@ == unsupported_message(kind, model),
    }
}

impl TransitionKind {
    /// The model and embedded controller project to look firmware up under,
    /// with the rules that ship with this library.
    pub fn transition(self, model: &str, variant: u8, project: &str) -> (r: Result<(String, String), String>)
        ensures
            transition_result(self, default_rules(), model@, variant, project@, r),
    {
        let rules = transitions();
        self.transition_with(&rules, model, variant, project)
    }

    /// The model and embedded controller project to look firmware up under,
    /// with the rules `rules`, the first that matches taking effect.
    pub fn transition_with(self, rules: &Vec<Transition>, model: &str, variant: u8, project: &str) -> (r: Result<(String, String), String>)
        ensures
            transition_result(self, rules_view(rules@), model@, variant, project@, r),
    {
        let ghost rv = rules_view(rules@);
        let mut i: usize = 0;
        while i < rules.len()
            invariant
                0 <= i <= rules@.len(),
                rv == rules_view(rules@),
                resolve(self, rv, model@, variant, project@)
                    == resolve_from(self, rv, i as int, model@, variant, project@),
            decreases rules@.len() - i,
        {
            let t = &rules[i];
            if same_text(model, t.model.as_str()) && variant == t.variant {
                let new_project: &str = if same_text(project, t.open.as_str()) {
                    match self {
                        TransitionKind::Automatic => t.open.as_str(),
                        TransitionKind::Open => t.open.as_str(),
                        TransitionKind::Proprietary => t.proprietary.as_str(),
                    }
                } else if same_text(project, t.proprietary.as_str()) {
                    match self {
                        TransitionKind::Automatic => if t.liberate {
                            t.open.as_str()
                        } else {
                            t.proprietary.as_str()
                        },
                        TransitionKind::Open => t.open.as_str(),
                        TransitionKind::Proprietary => t.proprietary.as_str(),
                    }
                } else {
                    project
                };
                return Ok((String::from_str(model), String::from_str(new_project)));
            }
            i += 1;
        }
        let open = open_project_name();
        let is_open = same_text(project, open.as_str());
        match self {
            TransitionKind::Open if !is_open => {
                let s = joined("Model '", model);
                let s = joined(s.as_str(), "' is not supported by open firmware and EC at this time");
                Err(s)
            },
            TransitionKind::Proprietary if is_open => {
                let s = joined("Model '", model);
                let s = joined(s.as_str(), "' is not supported by proprietary firmware and EC at this time");
                Err(s)
            },
            _ => Ok((String::from_str(model), String::from_str(project))),
        }
    }
}

} // verus!
