//! The closed taxonomy of outcomes reported across the boundary, and the
//! diagnostic message each failure carries.

use vstd::prelude::*;
use vstd::string::StringExecFns;

verus! {

/// One outcome kind.  `Success` marks a result that carries a mesh; every
/// other kind marks a failure of one pipeline stage.
#[derive(Clone, Copy, PartialEq, Eq, Structural, Debug)]
pub enum TruckErrorCode {
    Success,
    ErrInvalidArgument,
    ErrIo,
    ErrStepUnsupportedSchema,
    ErrTessellationFailed,
    ErrPanic,
}

impl TruckErrorCode {
    /// The stable integer under which this kind crosses the boundary.
    pub open spec fn code_spec(self) -> int {
        match self {
            TruckErrorCode::Success => 0,
            TruckErrorCode::ErrInvalidArgument => 1,
            TruckErrorCode::ErrIo => 2,
            TruckErrorCode::ErrStepUnsupportedSchema => 3,
            TruckErrorCode::ErrTessellationFailed => 4,
            TruckErrorCode::ErrPanic => 5,
        }
    }

    /// Returns the stable integer code of this kind.
    pub fn code(&self) -> (r: i32)
        ensures
            r as int == self.code_spec(),
    {
        match self {
            TruckErrorCode::Success => 0,
            TruckErrorCode::ErrInvalidArgument => 1,
            TruckErrorCode::ErrIo => 2,
            TruckErrorCode::ErrStepUnsupportedSchema => 3,
            TruckErrorCode::ErrTessellationFailed => 4,
            TruckErrorCode::ErrPanic => 5,
        }
    }
}

/// A failure outcome: one kind of the closed taxonomy plus a one-line
/// diagnostic message.
#[derive(Debug)]
pub struct MeshError {
    pub kind: TruckErrorCode,
    pub message: String,
}

impl MeshError {
    /// Every failure carries a kind other than `Success` and a non-empty
    /// message.
    pub open spec fn wf(self) -> bool {
        &&& self.kind != TruckErrorCode::Success
        &&& self.message@.len() > 0
    }

    /// Builds a failure from a kind and a fixed message.
    pub fn new(kind: TruckErrorCode, message: &str) -> (r: MeshError)
        requires
            kind != TruckErrorCode::Success,
            message@.len() > 0,
        ensures
            r.kind == kind,
            r.message@ == message@,
            r.wf(),
    {
        MeshError { kind, message: String::from_str(message) }
    }

    /// Builds a failure whose message is a fixed prefix followed by a
    /// detail text taken from a collaborator's own report.
    pub fn with_detail(kind: TruckErrorCode, prefix: &str, detail: &str) -> (r: MeshError)
        requires
            kind != TruckErrorCode::Success,
            prefix@.len() > 0,
        ensures
            r.kind == kind,
            r.message@ == prefix@ + detail@,
            r.wf(),
    {
        MeshError { kind, message: String::from_str(prefix).concat(detail) }
    }
}

/// The decimal digit character for a value below ten.
pub open spec fn digit_char(d: int) -> char {
    if d == 0 {
        '0'
    } else if d == 1 {
        '1'
    } else if d == 2 {
        '2'
    } else if d == 3 {
        '3'
    } else if d == 4 {
        '4'
    } else if d == 5 {
        '5'
    } else if d == 6 {
        '6'
    } else if d == 7 {
        '7'
    } else if d == 8 {
        '8'
    } else {
        '9'
    }
}

/// The decimal rendering of a non-negative value, most significant
/// digit first.
pub open spec fn decimal_of(n: int) -> Seq<char>
    decreases n,
{
    if n < 10 {
        seq![digit_char(n)]
    } else {
        decimal_of(n / 10) + seq![digit_char(n % 10)]
    }
}

/// Appends one decimal digit below ten.
fn push_digit(out: &mut String, d: u64)
    requires
        d < 10,
    ensures
        final(out)@ == old(out)@ + seq![digit_char(d as int)],
{
    let ghost mid = out@;
    if d == 0 {
        out.append("0");
    } else if d == 1 {
        out.append("1");
    } else if d == 2 {
        out.append("2");
    } else if d == 3 {
        out.append("3");
    } else if d == 4 {
        out.append("4");
    } else if d == 5 {
        out.append("5");
    } else if d == 6 {
        out.append("6");
    } else if d == 7 {
        out.append("7");
    } else if d == 8 {
        out.append("8");
    } else {
        out.append("9");
    }
    proof {
        reveal_strlit("0");
        reveal_strlit("1");
        reveal_strlit("2");
        reveal_strlit("3");
        reveal_strlit("4");
        reveal_strlit("5");
        reveal_strlit("6");
        reveal_strlit("7");
        reveal_strlit("8");
        reveal_strlit("9");
        assert(out@ =~= mid + seq![digit_char(d as int)]);
    }
}

/// Appends the decimal rendering of a value, most significant digit
/// first.
fn push_decimal(out: &mut String, n: u64)
    ensures
        final(out)@ == old(out)@ + decimal_of(n as int),
    decreases n,
{
    if n >= 10 {
        push_decimal(out, n / 10);
    }
    push_digit(out, n % 10);
    proof {
        assert(out@ =~= old(out)@ + decimal_of(n as int));
    }
}

/// Renders a value in decimal, exactly as `decimal_of` states it.
pub fn decimal_string(n: u64) -> (r: String)
    ensures
        r@ == decimal_of(n as int),
{
    let mut out = String::new();
    push_decimal(&mut out, n);
    proof {
        assert(out@ =~= decimal_of(n as int));
    }
    out
}

/// The bytes of the substitute message used when a diagnostic text is
/// empty or cannot be built: "unknown error".
pub open spec fn unknown_error_bytes() -> Seq<u8> {
    seq![117u8, 110u8, 107u8, 110u8, 111u8, 119u8, 110u8, 32u8, 101u8, 114u8, 114u8, 111u8, 114u8]
}

/// The sanitized form of a diagnostic message as it crosses the
/// boundary: an empty message is replaced whole by "unknown error", and
/// in a non-empty one every null byte becomes a space.
pub open spec fn sanitized(s: Seq<u8>) -> Seq<u8> {
    if s.len() == 0 {
        unknown_error_bytes()
    } else {
        s.map_values(|b: u8| if b == 0 { 32u8 } else { b })
    }
}

/// Prepares the bytes of a diagnostic message for transport: the result
/// is never empty and holds no null byte, so the boundary layer can carry
/// it as a null-terminated text without failing.
pub fn sanitize_message(bytes: &Vec<u8>) -> (r: Vec<u8>)
    ensures
        r@ == sanitized(bytes@),
        r@.len() > 0,
        forall|i: int| 0 <= i < r@.len() ==> (#[trigger] r@[i]) != 0,
{
    if bytes.len() == 0 {
        let fallback: Vec<u8> = vec![
            117u8, 110u8, 107u8, 110u8, 111u8, 119u8, 110u8, 32u8, 101u8, 114u8, 114u8, 111u8,
            114u8,
        ];
        assert(fallback@ =~= unknown_error_bytes());
        fallback
    } else {
        let mut out: Vec<u8> = Vec::new();
        let mut i: usize = 0;
        while i < bytes.len()
            invariant
                0 <= i <= bytes@.len(),
                out@.len() == i,
                forall|j: int|
                    0 <= j < i ==> (#[trigger] out@[j]) == (if bytes@[j] == 0 {
                        32u8
                    } else {
                        bytes@[j]
                    }),
            decreases bytes@.len() - i,
        {
            let b = bytes[i];
            if b == 0 {
                out.push(32);
            } else {
                out.push(b);
            }
            i = i + 1;
        }
        assert(out@ =~= sanitized(bytes@));
        out
    }
}

} // verus!
