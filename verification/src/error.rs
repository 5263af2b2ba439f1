//! The errors of the recorder.
use vstd::prelude::*;

verus! {

/// A status code of the operating system.
pub type HResult = i32;

/// A failure without further detail.
pub const E_FAIL: HResult = -2147467259;

/// The call is not implemented.
pub const E_NOTIMPL: HResult = -2147467263;

/// A failure that nothing accounts for.
pub const E_UNEXPECTED: HResult = -2147418113;

/// A pointer that must not be null is null.
pub const E_POINTER: HResult = -2147467261;

/// An argument is not valid.
pub const E_INVALIDARG: HResult = -2147024809;

/// The result of an operation of the recorder.
pub type Result<T> = std::result::Result<T, RecorderError>;

/// An error that the operating system reported.
#[derive(Debug)]
pub struct WindowsError {
    /// The status code.
    pub code: HResult,
    /// The system's own words for it, which may be empty.
    pub message: String,
}

/// What can go wrong while recording.
#[derive(Debug)]
pub enum RecorderError {
    /// The operating system reported an error.
    Windows(WindowsError),
    /// Anything that has no variant of its own.
    Generic(String),
    /// The recording could not be started.
    FailedToStart(String),
    /// The recording could not be stopped.
    FailedToStop,
    /// There is no recording to act on.
    NoRecorderBound,
    /// The recording was stopped before.
    RecorderAlreadyStopped,
    /// No process was named.
    NoProcessSpecified,
}

/// The upper-case hexadecimal digit of a value below sixteen.
pub open spec fn hex_digit(n: int) -> char {
    if n < 10 {
        (n + 48) as char
    } else {
        (n + 55) as char
    }
}

/// A code as the unsigned number with the same bits.
pub open spec fn code_bits(code: HResult) -> int {
    if code >= 0 {
        code as int
    } else {
        code + 0x1_0000_0000
    }
}

/// `0x` and the eight hexadecimal digits of a number below 2^32, the leading
/// one first.
pub open spec fn hex_text(n: int) -> Seq<char> {
    seq![
        '0',
        'x',
        hex_digit(n / 0x1000_0000 % 16),
        hex_digit(n / 0x100_0000 % 16),
        hex_digit(n / 0x10_0000 % 16),
        hex_digit(n / 0x1_0000 % 16),
        hex_digit(n / 0x1000 % 16),
        hex_digit(n / 0x100 % 16),
        hex_digit(n / 0x10 % 16),
        hex_digit(n % 16),
    ]
}

/// What a system error reads like: its words, followed by the code in round
/// brackets, or the code alone where there are no words.
pub open spec fn windows_error_text(e: WindowsError) -> Seq<char> {
    let code = hex_text(code_bits(e.code));
    if e.message@.len() == 0 {
        code
    } else {
        e.message@ + " ("@ + code + ")"@
    }
}

/// What a recorder error reads like.
pub open spec fn error_text(e: RecorderError) -> Seq<char> {
    match e {
        RecorderError::Windows(w) => "Windows API error: "@ + windows_error_text(w),
        RecorderError::Generic(reason) => "Generic Error: "@ + reason@,
        RecorderError::FailedToStart(reason) =>
            "Failed to Start the Recording Process, reason: "@ + reason@,
        RecorderError::FailedToStop => "Failed to Stop the Recording Process"@,
        RecorderError::NoRecorderBound =>
            "Called to Stop when there is no Recorder Configured"@,
        RecorderError::RecorderAlreadyStopped =>
            "Called to Stop when the Recorder is Already Stopped"@,
        RecorderError::NoProcessSpecified => "No Process Specified for the Recorder"@,
    }
}

/// The text of `hex_digit`.
fn digit(n: u32) -> (r: &'static str)
    requires
        n < 16,
    ensures
        r@ == seq![hex_digit(n as int)],
{
    let text = match n {
        0 => "0",
        1 => "1",
        2 => "2",
        3 => "3",
        4 => "4",
        5 => "5",
        6 => "6",
        7 => "7",
        8 => "8",
        9 => "9",
        10 => "A",
        11 => "B",
        12 => "C",
        13 => "D",
        14 => "E",
        _ => "F",
    };
    proof {
        reveal_strlit("0");
        reveal_strlit("1");
        reveal_strlit("2");
        reveal_strlit("3");
        reveal_strlit("4");
        reveal_strlit("5");
        reveal_strlit("6");
        reveal_strlit("7");
        reveal_strlit("8");
        reveal_strlit("9");
        reveal_strlit("A");
        reveal_strlit("B");
        reveal_strlit("C");
        reveal_strlit("D");
        reveal_strlit("E");
        reveal_strlit("F");
    }
    assert(text@ =~= seq![hex_digit(n as int)]);
    text
}

/// Computes `hex_text` of a code's bits.
fn code_text(code: HResult) -> (r: String)
    ensures
        r@ == hex_text(code_bits(code)),
{
    let n: u32 = code as u32;
    assert(code >= 0 ==> (code as u32) as int == code) by (bit_vector);
    assert(code < 0 ==> (code as u32) as int == code + 0x1_0000_0000) by (bit_vector);
    let mut text = String::new();
    text.append("0x");
    text.append(digit(n / 0x1000_0000 % 16));
    text.append(digit(n / 0x100_0000 % 16));
    text.append(digit(n / 0x10_0000 % 16));
    text.append(digit(n / 0x1_0000 % 16));
    text.append(digit(n / 0x1000 % 16));
    text.append(digit(n / 0x100 % 16));
    text.append(digit(n / 0x10 % 16));
    text.append(digit(n % 16));
    proof {
        reveal_strlit("0x");
    }
    assert(text@ =~= hex_text(code_bits(code)));
    text
}

impl WindowsError {
    /// The error for a code and the words that go with it.
    pub fn new(code: HResult, message: String) -> (r: Self)
        ensures
            r.code == code,
            r.message@ == message@,
    {
        WindowsError { code, message }
    }

    /// What the error reads like.
    pub fn to_text(&self) -> (r: String)
        ensures
            r@ == windows_error_text(*self),
    {
        let code = code_text(self.code);
        if self.message.as_str().is_empty() {
            proof {
                assert(self.message@.len() == 0);
            }
            code
        } else {
            let mut text = self.message.clone();
            text.append(" (");
            text.append(code.as_str());
            text.append(")");
            text
        }
    }
}

impl RecorderError {
    /// What the error reads like.
    pub fn to_text(&self) -> (r: String)
        ensures
            r@ == error_text(*self),
    {
        match self {
            RecorderError::Windows(w) => {
                let mut text = "Windows API error: ".to_owned();
                text.append(w.to_text().as_str());
                text
            },
            RecorderError::Generic(reason) => {
                let mut text = "Generic Error: ".to_owned();
                text.append(reason.as_str());
                text
            },
            RecorderError::FailedToStart(reason) => {
                let mut text = "Failed to Start the Recording Process, reason: ".to_owned();
                text.append(reason.as_str());
                text
            },
            RecorderError::FailedToStop => "Failed to Stop the Recording Process".to_owned(),
            RecorderError::NoRecorderBound =>
                "Called to Stop when there is no Recorder Configured".to_owned(),
            RecorderError::RecorderAlreadyStopped =>
                "Called to Stop when the Recorder is Already Stopped".to_owned(),
            RecorderError::NoProcessSpecified => "No Process Specified for the Recorder".to_owned(),
        }
    }
}

impl vstd::std_specs::convert::FromSpecImpl<RecorderError> for WindowsError {
    open spec fn obeys_from_spec() -> bool {
        false
    }

    open spec fn from_spec(e: RecorderError) -> WindowsError {
        arbitrary()
    }
}

impl From<RecorderError> for WindowsError {
    /// A system error as it is; any other with the code for a failure without
    /// detail and with what the error reads like as the words.
    fn from(err: RecorderError) -> (r: WindowsError)
        ensures
            err matches RecorderError::Windows(w) ==> r == w,
            !(err is Windows) ==> r.code == E_FAIL && r.message@ == error_text(err),
    {
        match err {
            RecorderError::Windows(w) => w,
            other => WindowsError { code: E_FAIL, message: other.to_text() },
        }
    }
}

/// What a hexadecimal digit stands for.
pub open spec fn digit_value(c: char) -> int {
    if '0' <= c <= '9' {
        c as int - 48
    } else {
        c as int - 55
    }
}

/// A code is spelled by `0x` and eight hexadecimal digits, which together stand for
/// the number with the same 32 bits.
pub proof fn digits_spell_the_code(code: HResult)
    ensures
        0 <= code_bits(code) < 0x1_0000_0000,
        (code_bits(code) - code) % 0x1_0000_0000 == 0,
        ({
            let text = hex_text(code_bits(code));
            &&& text.len() == 10
            &&& text[0] == '0'
            &&& text[1] == 'x'
            &&& digit_value(text[2]) * 0x1000_0000 + digit_value(text[3]) * 0x100_0000
                + digit_value(text[4]) * 0x10_0000 + digit_value(text[5]) * 0x1_0000
                + digit_value(text[6]) * 0x1000 + digit_value(text[7]) * 0x100 + digit_value(text[8])
                * 0x10 + digit_value(text[9]) == code_bits(code)
        }),
{
    let n = code_bits(code);
    let text = hex_text(n);
    places_add_up(n);
    assert(digit_value(text[2]) == n / 0x1000_0000 % 16);
    assert(digit_value(text[3]) == n / 0x100_0000 % 16);
    assert(digit_value(text[4]) == n / 0x10_0000 % 16);
    assert(digit_value(text[5]) == n / 0x1_0000 % 16);
    assert(digit_value(text[6]) == n / 0x1000 % 16);
    assert(digit_value(text[7]) == n / 0x100 % 16);
    assert(digit_value(text[8]) == n / 0x10 % 16);
    assert(digit_value(text[9]) == n % 16);
}

/// The places of a number below 2^32 add up to the number.
proof fn places_add_up(n: int)
    requires
        0 <= n < 0x1_0000_0000,
    ensures
        (n / 0x1000_0000 % 16) * 0x1000_0000 + (n / 0x100_0000 % 16) * 0x100_0000 + (n / 0x10_0000
            % 16) * 0x10_0000 + (n / 0x1_0000 % 16) * 0x1_0000 + (n / 0x1000 % 16) * 0x1000 + (n
            / 0x100 % 16) * 0x100 + (n / 0x10 % 16) * 0x10 + n % 16 == n,
{
    let a = n / 0x10;
    let b = a / 0x10;
    let c = b / 0x10;
    let d = c / 0x10;
    let e = d / 0x10;
    let f = e / 0x10;
    let g = f / 0x10;
    assert(n / 0x100 == b);
    assert(n / 0x1000 == c);
    assert(n / 0x1_0000 == d);
    assert(n / 0x10_0000 == e);
    assert(n / 0x100_0000 == f);
    assert(n / 0x1000_0000 == g);
    assert(g % 16 == g);
}

/// A system error reads like its words and its code in round brackets, or like its
/// code alone where it has no words.
pub proof fn error_reads_like_words_and_code(e: WindowsError)
    ensures
        e.message@.len() == 0 ==> windows_error_text(e) == hex_text(code_bits(e.code)),
        e.message@.len() > 0 ==> e.message@.is_prefix_of(windows_error_text(e))
            && windows_error_text(e).len() == e.message@.len() + 13,
        e.message@.len() > 0 ==> windows_error_text(e).subrange(
            e.message@.len() as int + 2,
            e.message@.len() as int + 12,
        ) == hex_text(code_bits(e.code)),
{
    reveal_strlit(" (");
    reveal_strlit(")");
    if e.message@.len() > 0 {
        let text = windows_error_text(e);
        assert(text.subrange(0, e.message@.len() as int) =~= e.message@);
        let start = e.message@.len() as int;
        assert(text.subrange(start + 2, start + 12) =~= hex_text(code_bits(e.code)));
    }
}

/// A text has the words of what it tells at its end.
pub proof fn texts_tell_the_reason(e: RecorderError)
    ensures
        match e {
            RecorderError::Windows(w) => windows_error_text(w).is_suffix_of(error_text(e)),
            RecorderError::Generic(reason) => reason@.is_suffix_of(error_text(e)),
            RecorderError::FailedToStart(reason) => reason@.is_suffix_of(error_text(e)),
            _ => true,
        },
{
    match e {
        RecorderError::Windows(w) => {
            let text = error_text(e);
            let reason = windows_error_text(w);
            assert(text.subrange(text.len() - reason.len(), text.len() as int) =~= reason);
        },
        RecorderError::Generic(reason) => {
            let text = error_text(e);
            assert(text.subrange(text.len() - reason@.len(), text.len() as int) =~= reason@);
        },
        RecorderError::FailedToStart(reason) => {
            let text = error_text(e);
            assert(text.subrange(text.len() - reason@.len(), text.len() as int) =~= reason@);
        },
        _ => {},
    }
}

} // verus!
