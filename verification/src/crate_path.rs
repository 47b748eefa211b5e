//! Which path the GPUI API is reached by in the crate where a macro
//! expands: `gpui-kit` is preferred (it re-exports GPUI), then the
//! `gpui-pre` package, then plain `gpui` (a Zed checkout). The lookups read
//! the manifest of the crate being compiled, so the caller makes them; this
//! module decides which one comes next and what their answers resolve to.

use vstd::prelude::*;

use crate::text::owned;

verus! {

/// How a dependency is found in the current manifest.
#[derive(Debug)]
pub enum FoundCrate {
    /// The searched crate is the crate being compiled.
    Itself,
    /// The searched crate is a dependency, reached by this name.
    Name(String),
}

/// What a [`FoundCrate`] says, with the name as characters.
pub enum FoundCrateModel {
    Itself,
    Name(Seq<char>),
}

impl View for FoundCrate {
    type V = FoundCrateModel;

    open spec fn view(&self) -> FoundCrateModel {
        match self {
            FoundCrate::Itself => FoundCrateModel::Itself,
            FoundCrate::Name(n) => FoundCrateModel::Name(n@),
        }
    }
}

/// Why each of the three lookups failed.
#[derive(Debug)]
pub struct LookupFailure {
    pub kit_error: String,
    pub pre_error: String,
    pub gpui_error: String,
}

/// The first lookup that succeeded, in the order `gpui-kit`, `gpui-pre`,
/// `gpui`; when all three failed, all three errors.
pub fn resolve_gpui(
    kit: Result<FoundCrate, String>,
    pre: Result<FoundCrate, String>,
    gpui: Result<FoundCrate, String>,
) -> (r: Result<FoundCrate, LookupFailure>)
    ensures
        match (kit, pre, gpui) {
            (Ok(k), _, _) => r matches Ok(f) && f@ == k@,
            (Err(_), Ok(p), _) => r matches Ok(f) && f@ == p@,
            (Err(_), Err(_), Ok(g)) => r matches Ok(f) && f@ == g@,
            (Err(ke), Err(pe), Err(ge)) => r matches Err(e) && e.kit_error@ == ke@
                && e.pre_error@ == pe@ && e.gpui_error@ == ge@,
        },
{
    match kit {
        Ok(found) => Ok(found),
        Err(kit_error) => match pre {
            Ok(found) => Ok(found),
            Err(pre_error) => match gpui {
                Ok(found) => Ok(found),
                Err(gpui_error) => Err(LookupFailure { kit_error, pre_error, gpui_error }),
            },
        },
    }
}

/// The packages the GPUI API is looked up under, in order of preference:
/// `gpui-kit`, then `gpui-pre`, then `gpui`.
pub open spec fn gpui_candidate(i: int) -> Seq<char> {
    if i == 0 {
        "gpui-kit"@
    } else if i == 1 {
        "gpui-pre"@
    } else {
        "gpui"@
    }
}

/// What to do next while resolving the GPUI API.
#[derive(Debug)]
pub enum GpuiStep {
    /// Look this package up in the current manifest and hand the answer
    /// back, after the earlier ones.
    Lookup(&'static str),
    /// The resolution is over: the crate found, or why all lookups failed.
    Done(Result<FoundCrate, LookupFailure>),
}

/// The same found crate, owned anew.
fn copy_found(found: &FoundCrate) -> (r: FoundCrate)
    ensures
        r@ == found@,
{
    match found {
        FoundCrate::Itself => FoundCrate::Itself,
        FoundCrate::Name(name) => FoundCrate::Name(name.clone()),
    }
}

/// The error of a failed lookup.
fn error_of(answer: &Result<FoundCrate, String>) -> (r: String)
    requires
        answer is Err,
    ensures
        answer matches Err(e) && r@ == e@,
{
    match answer {
        Err(e) => e.clone(),
        Ok(_) => String::new(),
    }
}

/// The next step in resolving the GPUI API exposed to the crate where a
/// macro is expanded, given the answers of the lookups made so far (the
/// `i`-th for [`gpui_candidate`]`(i)`). The first lookup that succeeds
/// decides; `gpui-pre` is looked up only after `gpui-kit` failed, and `gpui`
/// only after both failed; when all three failed, the result holds their
/// three errors.
pub fn gpui_step(answers: &Vec<Result<FoundCrate, String>>) -> (r: GpuiStep)
    ensures
        r matches GpuiStep::Lookup(name) ==> {
            &&& answers@.len() < 3
            &&& forall|j: int| 0 <= j < answers@.len() ==> (#[trigger] answers@[j]) is Err
            &&& name@ == gpui_candidate(answers@.len() as int)
        },
        r matches GpuiStep::Done(Ok(found)) ==> exists|i: int|
            {
                &&& 0 <= i < 3
                &&& i < answers@.len()
                &&& (#[trigger] answers@[i]) matches Ok(f) && f@ == found@
                &&& forall|j: int| 0 <= j < i ==> (#[trigger] answers@[j]) is Err
            },
        r matches GpuiStep::Done(Err(e)) ==> {
            &&& answers@.len() >= 3
            &&& forall|j: int| 0 <= j < 3 ==> (#[trigger] answers@[j]) is Err
            &&& answers@[0] matches Err(k) && e.kit_error@ == k@
            &&& answers@[1] matches Err(p) && e.pre_error@ == p@
            &&& answers@[2] matches Err(g) && e.gpui_error@ == g@
        },
{
    let n = answers.len();
    let limit: usize = if n < 3 {
        n
    } else {
        3
    };
    let mut i: usize = 0;
    while i < limit
        invariant
            n == answers@.len(),
            limit == (if n < 3 {
                n
            } else {
                3
            }),
            i <= limit,
            forall|j: int| 0 <= j < i ==> (#[trigger] answers@[j]) is Err,
        decreases limit - i,
    {
        if let Ok(found) = &answers[i] {
            return GpuiStep::Done(Ok(copy_found(found)));
        }
        i = i + 1;
    }
    if n == 0 {
        GpuiStep::Lookup("gpui-kit")
    } else if n == 1 {
        GpuiStep::Lookup("gpui-pre")
    } else if n == 2 {
        GpuiStep::Lookup("gpui")
    } else {
        GpuiStep::Done(
            Err(
                LookupFailure {
                    kit_error: error_of(&answers[0]),
                    pre_error: error_of(&answers[1]),
                    gpui_error: error_of(&answers[2]),
                },
            ),
        )
    }
}

/// The path by which a found crate is reached: `crate` for the crate
/// itself, `::name` for a dependency.
pub open spec fn crate_path_spec(f: FoundCrateModel) -> Seq<char> {
    match f {
        FoundCrateModel::Itself => "crate"@,
        FoundCrateModel::Name(n) => "::"@ + n,
    }
}

/// The path by which a found crate is reached.
pub fn found_crate_path(found: &FoundCrate) -> (r: String)
    ensures
        r@ == crate_path_spec(found@),
{
    match found {
        FoundCrate::Itself => owned("crate"),
        FoundCrate::Name(name) => owned("::").concat(name.as_str()),
    }
}

/// The error message when no GPUI crate could be found.
pub open spec fn failure_message_spec(kit: Seq<char>, pre: Seq<char>, gpui: Seq<char>) -> Seq<char> {
    "IntoPlot requires a direct dependency on `gpui-kit`, `gpui-pre` or `gpui`: gpui-kit lookup failed: "@
        + kit + "; gpui-pre lookup failed: "@ + pre + "; gpui lookup failed: "@ + gpui
}

/// The error message when no GPUI crate could be found.
pub fn failure_message(f: &LookupFailure) -> (r: String)
    ensures
        r@ == failure_message_spec(f.kit_error@, f.pre_error@, f.gpui_error@),
{
    owned(
        "IntoPlot requires a direct dependency on `gpui-kit`, `gpui-pre` or `gpui`: gpui-kit lookup failed: ",
    ).concat(f.kit_error.as_str()).concat("; gpui-pre lookup failed: ").concat(
        f.pre_error.as_str(),
    ).concat("; gpui lookup failed: ").concat(f.gpui_error.as_str())
}

} // verus!
