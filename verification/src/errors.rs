//! The closed error taxonomy and the conversion rule from engine-level
//! failures onto it.

use vstd::prelude::*;

verus! {

/// The closed set of reasons a reconciliation can fail. Only
/// `PermissionDenied` and `Other` are produced by the current conversion
/// rule; the remaining members are declared extension points for a
/// conversion that inspects structured engine error codes.
#[derive(Clone, Copy, Debug, PartialEq, Eq, Structural)]
pub enum StartFailureReason {
    StoragePathDoesNotExist,
    ImageDoesNotExist,
    PortBindFailure,
    PermissionDenied,
    Other,
}

/// An engine-level failure, reduced to the two pieces of text the
/// conversion rule reads: the rendered root cause when the error carries a
/// structured one, and the rendering of the error itself.
pub struct EngineError {
    pub cause: Option<String>,
    pub rendered: String,
}

/// Mathematical image of an [`EngineError`].
#[verifier::ext_equal]
pub struct EngineErrorView {
    pub cause: Option<Seq<char>>,
    pub rendered: Seq<char>,
}

impl View for EngineError {
    type V = EngineErrorView;

    open spec fn view(&self) -> EngineErrorView {
        EngineErrorView { cause: self.cause.deep_view(), rendered: self.rendered@ }
    }
}

/// The outcome of a failed reconciliation: a taxonomy member plus a
/// free-text diagnostic, engine-provided where available.
pub struct ContainerRunError {
    pub reason: StartFailureReason,
    pub message: String,
}

/// Mathematical image of a [`ContainerRunError`].
#[verifier::ext_equal]
pub struct ContainerRunErrorView {
    pub reason: StartFailureReason,
    pub message: Seq<char>,
}

impl View for ContainerRunError {
    type V = ContainerRunErrorView;

    open spec fn view(&self) -> ContainerRunErrorView {
        ContainerRunErrorView { reason: self.reason, message: self.message@ }
    }
}

/// ASCII case folding of one character's code point: the uppercase ASCII
/// letters map onto their lowercase counterparts, everything else is left
/// unchanged.
pub open spec fn folded_code(c: char) -> u32 {
    if 65 <= c as u32 && c as u32 <= 90 {
        (c as u32 + 32) as u32
    } else {
        c as u32
    }
}

/// `pat` occurs in `text` at position `k`: the two agree, after ASCII case
/// folding, on `pat.len()` consecutive characters starting at `k`.
pub open spec fn matches_at(text: Seq<char>, pat: Seq<char>, k: int) -> bool {
    forall|j: int| 0 <= j < pat.len() ==> folded_code(text[k + j]) == folded_code(#[trigger] pat[j])
}

/// `text` contains `pat` as a substring, compared up to ASCII case.
pub open spec fn contains_ignoring_case(text: Seq<char>, pat: Seq<char>) -> bool {
    exists|k: int| 0 <= k && k + pat.len() <= text.len() && matches_at(text, pat, k)
}

fn folded_char_code(c: char) -> (r: u32)
    ensures
        r == folded_code(c),
{
    let u = c as u32;
    if 65 <= u && u <= 90 {
        u + 32
    } else {
        u
    }
}

/// Substring search that ignores ASCII case, so that a marker phrase is
/// recognised regardless of how the engine capitalised the surrounding
/// text.
pub fn contains_ignore_ascii_case(text: &str, pat: &str) -> (r: bool)
    ensures
        r == contains_ignoring_case(text@, pat@),
{
    let n = text.unicode_len();
    let m = pat.unicode_len();
    if m > n {
        return false;
    }
    let mut k: usize = 0;
    loop
        invariant
            m <= n,
            n == text@.len(),
            m == pat@.len(),
            k <= n - m + 1,
            forall|k2: int| 0 <= k2 < k ==> !matches_at(text@, pat@, k2),
        decreases n - m + 1 - k,
    {
        if k > n - m {
            assert(forall|k2: int|
                0 <= k2 && k2 + pat@.len() <= text@.len() ==> !matches_at(text@, pat@, k2));
            return false;
        }
        let mut j: usize = 0;
        let mut is_match = true;
        while is_match && j < m
            invariant
                m <= n,
                n == text@.len(),
                m == pat@.len(),
                k <= n - m,
                j <= m,
                is_match ==> forall|j2: int|
                    0 <= j2 < j ==> folded_code(text@[k + j2]) == folded_code(#[trigger] pat@[j2]),
                !is_match ==> !matches_at(text@, pat@, k as int),
            decreases m - j,
        {
            let tc = text.get_char(k + j);
            let pc = pat.get_char(j);
            if folded_char_code(tc) != folded_char_code(pc) {
                is_match = false;
                assert(!matches_at(text@, pat@, k as int)) by {
                    assert(folded_code(text@[k + j]) != folded_code(pat@[j as int]));
                }
            }
            j += 1;
        }
        if is_match {
            assert(contains_ignoring_case(text@, pat@)) by {
                assert(matches_at(text@, pat@, k as int));
            }
            return true;
        }
        k += 1;
    }
}

/// The marker phrase whose presence in a root cause's text, compared up to
/// ASCII case, signals a permission failure at the engine transport.
pub open spec fn permission_denied_marker() -> Seq<char> {
    "permission denied"@
}

/// The conversion rule from an engine failure to the taxonomy: a root
/// cause whose text contains the permission-denied marker (up to ASCII
/// case, regardless of surrounding text) classifies as `PermissionDenied`
/// with the cause text as message; any other cause classifies as `Other`
/// with the cause text; absent a structured cause, `Other` with the
/// error's own rendered text.
pub open spec fn classified(e: EngineErrorView) -> ContainerRunErrorView {
    match e.cause {
        Some(c) => ContainerRunErrorView {
            reason: if contains_ignoring_case(c, permission_denied_marker()) {
                StartFailureReason::PermissionDenied
            } else {
                StartFailureReason::Other
            },
            message: c,
        },
        None => ContainerRunErrorView { reason: StartFailureReason::Other, message: e.rendered },
    }
}

/// Applies [`classified`] to a concrete engine failure.
pub fn classify_engine_error(e: EngineError) -> (r: ContainerRunError)
    ensures
        r@ == classified(e@),
{
    match e.cause {
        Some(c) => {
            let permission = contains_ignore_ascii_case(c.as_str(), "permission denied");
            let reason = if permission {
                StartFailureReason::PermissionDenied
            } else {
                StartFailureReason::Other
            };
            ContainerRunError { reason, message: c }
        },
        None => ContainerRunError { reason: StartFailureReason::Other, message: e.rendered },
    }
}

/// Caller-facing rendering of a failed reconciliation: the permission case
/// names the problem and carries the diagnostic, every other reason gets a
/// generic line.
pub open spec fn described(e: ContainerRunErrorView) -> Seq<char> {
    if e.reason == StartFailureReason::PermissionDenied {
        "Permission denied communicating with docker service: "@ + e.message
    } else {
        "Error occurred"@
    }
}

impl ContainerRunError {
    /// Renders the error as one line of text for the caller.
    pub fn describe(&self) -> (r: String)
        ensures
            r@ == described(self@),
    {
        match self.reason {
            StartFailureReason::PermissionDenied => {
                let mut s = "Permission denied communicating with docker service: ".to_owned();
                s.append(self.message.as_str());
                s
            },
            _ => "Error occurred".to_owned(),
        }
    }
}

} // verus!
