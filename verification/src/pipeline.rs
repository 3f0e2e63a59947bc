//! The staged pipeline decisions: argument validation and the mapping of
//! every stage failure onto the closed error taxonomy.
//!
//! The stages that read the file system, drive the floating-point
//! tessellator and lay the result out for the boundary live in the
//! unverified shim around this crate; they hand these functions plain
//! values and take plain values back.

use crate::error::{MeshError, TruckErrorCode};
use vstd::prelude::*;
use vstd::string::StringExecFns;

verus! {

/// The path argument as the boundary layer classified it: a null
/// pointer, a text that does not decode, or the decoded text itself.
pub enum PathInput {
    Null,
    NotUtf8,
    Text(String),
}

impl PathInput {
    /// The characters of a decoded path; empty for the other two forms.
    pub open spec fn text_value(self) -> Seq<char> {
        match self {
            PathInput::Text(s) => s@,
            _ => Seq::empty(),
        }
    }
}

/// What `str::trim` leaves of a text: the text without its leading and
/// trailing whitespace.  The result depends on the characters alone.
pub uninterp spec fn trimmed(s: Seq<char>) -> Seq<char>;

/// Relies on `str::trim`: returns the text without leading and trailing
/// whitespace, so it is never longer than the text, and empty for an
/// empty text.
#[verifier::external_body]
fn trim_text(s: &str) -> (r: &str)
    ensures
        r@ == trimmed(s@),
        r@.len() <= s@.len(),
        s@.len() == 0 ==> r@.len() == 0,
{
    s.trim()
}

/// Validates the two caller-supplied arguments, in the fixed order of
/// the pipeline: a null path, then the deflection tolerance, then the
/// path's decoding, then its emptiness after trimming.  The boundary
/// layer classifies the raw pointer and the tolerance (a positive finite
/// number passes) and hands the verdicts here; no file is touched, so an
/// invalid argument wins over any would-be read failure.
pub fn validate_arguments(path: PathInput, deflection_positive_finite: bool) -> (r: Result<
    String,
    MeshError,
>)
    ensures
        match r {
            Ok(p) => {
                &&& path is Text
                &&& deflection_positive_finite
                &&& p@ == trimmed(path.text_value())
                &&& p@.len() > 0
            },
            Err(e) => {
                &&& e.wf()
                &&& e.kind == TruckErrorCode::ErrInvalidArgument
                &&& (path is Null ==> e.message@ == "step_path must not be null"@)
                &&& (!(path is Null) && !deflection_positive_finite ==> e.message@
                    == "linear_deflection must be a positive finite number"@)
                &&& (path is NotUtf8 && deflection_positive_finite ==> e.message@
                    == "step_path must be valid UTF-8"@)
                &&& (path is Text && deflection_positive_finite ==> trimmed(
                    path.text_value(),
                ).len() == 0 && e.message@ == "step_path must be a non-empty path"@)
            },
        },
{
    match path {
        PathInput::Null => {
            proof {
                reveal_strlit("step_path must not be null");
            }
            Err(MeshError::new(TruckErrorCode::ErrInvalidArgument, "step_path must not be null"))
        },
        PathInput::NotUtf8 => {
            if !deflection_positive_finite {
                proof {
                    reveal_strlit("linear_deflection must be a positive finite number");
                }
                Err(
                    MeshError::new(
                        TruckErrorCode::ErrInvalidArgument,
                        "linear_deflection must be a positive finite number",
                    ),
                )
            } else {
                proof {
                    reveal_strlit("step_path must be valid UTF-8");
                }
                Err(
                    MeshError::new(
                        TruckErrorCode::ErrInvalidArgument,
                        "step_path must be valid UTF-8",
                    ),
                )
            }
        },
        PathInput::Text(s) => {
            if !deflection_positive_finite {
                proof {
                    reveal_strlit("linear_deflection must be a positive finite number");
                }
                Err(
                    MeshError::new(
                        TruckErrorCode::ErrInvalidArgument,
                        "linear_deflection must be a positive finite number",
                    ),
                )
            } else {
                let t = trim_text(s.as_str());
                if t.is_empty() {
                    proof {
                        reveal_strlit("step_path must be a non-empty path");
                    }
                    Err(
                        MeshError::new(
                            TruckErrorCode::ErrInvalidArgument,
                            "step_path must be a non-empty path",
                        ),
                    )
                } else {
                    Ok(String::from_str(t))
                }
            }
        },
    }
}

/// The failure of the parse stage: the document text is not a
/// well-formed exchange structure; the parser's own report follows the
/// fixed prefix.  The parse call itself stands in the unverified shim,
/// under its fault-containment wrapper, because the parser can fault on
/// admitted inputs (an integer literal above the 64-bit signed range).
pub fn parse_failure_error(detail: &str) -> (r: MeshError)
    ensures
        r.wf(),
        r.kind == TruckErrorCode::ErrStepUnsupportedSchema,
        r.message@ == "failed to parse STEP data: "@ + detail@,
{
    proof {
        reveal_strlit("failed to parse STEP data: ");
    }
    MeshError::with_detail(
        TruckErrorCode::ErrStepUnsupportedSchema,
        "failed to parse STEP data: ",
        detail,
    )
}

/// The failure of the parse stage when the document parsed but holds no
/// data section at all.
pub fn no_data_section_error() -> (r: MeshError)
    ensures
        r.wf(),
        r.kind == TruckErrorCode::ErrStepUnsupportedSchema,
        r.message@ == "STEP exchange contains no data section"@,
{
    proof {
        reveal_strlit("STEP exchange contains no data section");
    }
    MeshError::new(
        TruckErrorCode::ErrStepUnsupportedSchema,
        "STEP exchange contains no data section",
    )
}

/// The failure of the read stage: the document could not be loaded from
/// the path; the collaborator's own report follows the fixed prefix.
pub fn io_error(detail: &str) -> (r: MeshError)
    ensures
        r.wf(),
        r.kind == TruckErrorCode::ErrIo,
        r.message@ == "failed to read STEP file: "@ + detail@,
{
    proof {
        reveal_strlit("failed to read STEP file: ");
    }
    MeshError::with_detail(TruckErrorCode::ErrIo, "failed to read STEP file: ", detail)
}

/// The failure of the table stage: the document parsed, but its entity
/// table holds no shell geometry at all.
pub fn no_shell_error() -> (r: MeshError)
    ensures
        r.wf(),
        r.kind == TruckErrorCode::ErrStepUnsupportedSchema,
        r.message@ == "STEP file contains no shell geometry"@,
{
    proof {
        reveal_strlit("STEP file contains no shell geometry");
    }
    MeshError::new(
        TruckErrorCode::ErrStepUnsupportedSchema,
        "STEP file contains no shell geometry",
    )
}

/// The failure of the conversion step inside the tessellation stage: one
/// shell of the table could not be brought into the compressed form; the
/// whole operation aborts with the collaborator's report after the fixed
/// prefix.
pub fn shell_convert_error(detail: &str) -> (r: MeshError)
    ensures
        r.wf(),
        r.kind == TruckErrorCode::ErrStepUnsupportedSchema,
        r.message@ == "failed to convert STEP shell: "@ + detail@,
{
    proof {
        reveal_strlit("failed to convert STEP shell: ");
    }
    MeshError::with_detail(
        TruckErrorCode::ErrStepUnsupportedSchema,
        "failed to convert STEP shell: ",
        detail,
    )
}

/// The failure the fault-containment wrapper reports when an internal
/// fault was intercepted at the boundary instead of crossing it.
pub fn panic_error() -> (r: MeshError)
    ensures
        r.wf(),
        r.kind == TruckErrorCode::ErrPanic,
        r.message@ == "panic while processing STEP file"@,
{
    proof {
        reveal_strlit("panic while processing STEP file");
    }
    MeshError::new(TruckErrorCode::ErrPanic, "panic while processing STEP file")
}

} // verus!
