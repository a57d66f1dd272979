//! The error taxonomy of the pipeline, and the aggregation of per-stage
//! error collections into a single reportable failure.
//!
//! Parse errors are aggregated in full, each pair separated by a blank line
//! under a header naming the file. Transform errors report only the first;
//! later ones are typically cascading from one root cause, and dropping them
//! keeps the failure message short. This asymmetry is deliberate.

use vstd::prelude::*;
use vstd::string::StringExecFns;

verus! {

/// One of the six kinds of failure the source-map mapping codec can report.
#[derive(Debug, Clone, PartialEq, Eq)]
pub enum SourceMapError {
    /// A VLQ string was malformed and data was left over.
    VlqLeftover,
    /// A VLQ string was empty and no values could be decoded.
    VlqNoValues,
    /// A VLQ-encoded value overflowed the numeric range.
    VlqOverflow,
    /// The underlying JSON was malformed; carries the parser's message.
    BadJson(String),
    /// A mapping segment had an unsupported size; carries that size.
    BadSegmentSize(u32),
    /// A dangling reference to a non-existent source or name; carries the
    /// offending index.
    BadReference(u32),
}

/// A failure of one pipeline run.
#[derive(Debug, Clone, PartialEq, Eq)]
pub enum TransformError {
    /// The filename's source type cannot be inferred, or a configuration
    /// value is malformed.
    InvalidArgument(String),
    /// One or more syntax errors; the message aggregates all of them.
    ParseFailure(String),
    /// One or more transform-stage errors; the message reports only the
    /// first.
    TransformFailure(String),
    /// The source-map conversion failed; no partial result is returned.
    SourceMapDecodeError(SourceMapError),
    /// The background execution context failed to run or complete a
    /// dispatched task.
    AsyncDispatchFailure(String),
}

/// The character printing a single decimal digit.
pub open spec fn digit_char(d: int) -> char {
    if d == 0 {
        '0'
    } else if d == 1 {
        '1'
    } else if d == 2 {
        '2'
    } else if d == 3 {
        '3'
    } else if d == 4 {
        '4'
    } else if d == 5 {
        '5'
    } else if d == 6 {
        '6'
    } else if d == 7 {
        '7'
    } else if d == 8 {
        '8'
    } else {
        '9'
    }
}

/// The decimal rendering of a natural number, most significant digit first.
pub open spec fn dec_str(n: nat) -> Seq<char>
    decreases n,
{
    if n < 10 {
        seq![digit_char(n as int)]
    } else {
        dec_str(n / 10) + seq![digit_char((n % 10) as int)]
    }
}

/// The one-character string printing the digit `d`.
fn digit_str(d: u32) -> (r: &'static str)
    requires
        d < 10,
    ensures
        r@ =~= seq![digit_char(d as int)],
{
    proof {
        reveal_strlit("0");
        reveal_strlit("1");
        reveal_strlit("2");
        reveal_strlit("3");
        reveal_strlit("4");
        reveal_strlit("5");
        reveal_strlit("6");
        reveal_strlit("7");
        reveal_strlit("8");
        reveal_strlit("9");
    }
    match d {
        0 => "0",
        1 => "1",
        2 => "2",
        3 => "3",
        4 => "4",
        5 => "5",
        6 => "6",
        7 => "7",
        8 => "8",
        _ => "9",
    }
}

/// The decimal rendering of `n`.
pub fn u32_dec(n: u32) -> (r: String)
    ensures
        r@ =~= dec_str(n as nat),
    decreases n,
{
    if n < 10 {
        digit_str(n).to_owned()
    } else {
        let mut s = u32_dec(n / 10);
        s.append(digit_str(n % 10));
        proof {
            assert(s@ =~= dec_str(n as nat));
        }
        s
    }
}

/// The decimal rendering of an integer, with a leading minus sign when it
/// is negative.
pub open spec fn dec_int_str(n: int) -> Seq<char> {
    if n < 0 {
        seq!['-'] + dec_str((-n) as nat)
    } else {
        dec_str(n as nat)
    }
}

/// The decimal rendering of `n`, signed.
pub fn i32_dec(n: i32) -> (r: String)
    ensures
        r@ =~= dec_int_str(n as int),
{
    if n >= 0 {
        u32_dec(n as u32)
    } else {
        proof {
            reveal_strlit("-");
        }
        let wide: i64 = n as i64;
        let magnitude: u32 = (-wide) as u32;
        let mut s = "-".to_owned();
        let digits = u32_dec(magnitude);
        s.append(digits.as_str());
        proof {
            assert("-"@ =~= seq!['-']);
            assert(s@ =~= dec_int_str(n as int));
        }
        s
    }
}

/// The fixed description of a source-map decode failure.
pub open spec fn spec_describe_map_error(e: SourceMapError) -> Seq<char> {
    match e {
        SourceMapError::VlqLeftover => "VLQ string was malformed and data was left over"@,
        SourceMapError::VlqNoValues => "VLQ string was empty and no values could be decoded"@,
        SourceMapError::VlqOverflow => "The input encoded a number that didn't fit into i64"@,
        SourceMapError::BadJson(msg) => "JSON parsing error: "@ + msg@,
        SourceMapError::BadSegmentSize(size) => "Mapping segment had an unsupported size of "@
            + dec_str(size as nat),
        SourceMapError::BadReference(idx) =>
        "Reference to a non-existent source or name at position "@ + dec_str(idx as nat),
    }
}

impl SourceMapError {
    /// The human-readable description of this decode failure.
    pub fn describe(&self) -> (r: String)
        ensures
            r@ =~= spec_describe_map_error(*self),
    {
        match self {
            SourceMapError::VlqLeftover => "VLQ string was malformed and data was left over"
                .to_owned(),
            SourceMapError::VlqNoValues => "VLQ string was empty and no values could be decoded"
                .to_owned(),
            SourceMapError::VlqOverflow => "The input encoded a number that didn't fit into i64"
                .to_owned(),
            SourceMapError::BadJson(msg) => {
                let mut s = "JSON parsing error: ".to_owned();
                s.append(msg.as_str());
                s
            },
            SourceMapError::BadSegmentSize(size) => {
                let mut s = "Mapping segment had an unsupported size of ".to_owned();
                let digits = u32_dec(*size);
                s.append(digits.as_str());
                s
            },
            SourceMapError::BadReference(idx) => {
                let mut s = "Reference to a non-existent source or name at position ".to_owned();
                let digits = u32_dec(*idx);
                s.append(digits.as_str());
                s
            },
        }
    }
}

/// The rendered message of a pipeline failure.
pub open spec fn spec_message(e: TransformError) -> Seq<char> {
    match e {
        TransformError::InvalidArgument(m) => m@,
        TransformError::ParseFailure(m) => m@,
        TransformError::TransformFailure(m) => m@,
        TransformError::SourceMapDecodeError(k) => spec_describe_map_error(k),
        TransformError::AsyncDispatchFailure(cause) => "Failed to complete the async transform: "@
            + cause@,
    }
}

impl TransformError {
    /// The human-readable message of this failure.
    pub fn message(&self) -> (r: String)
        ensures
            r@ =~= spec_message(*self),
    {
        match self {
            TransformError::InvalidArgument(m) => m.clone(),
            TransformError::ParseFailure(m) => m.clone(),
            TransformError::TransformFailure(m) => m.clone(),
            TransformError::SourceMapDecodeError(k) => k.describe(),
            TransformError::AsyncDispatchFailure(cause) => {
                let mut s = "Failed to complete the async transform: ".to_owned();
                s.append(cause.as_str());
                s
            },
        }
    }
}

/// The rendered error descriptions joined with one blank line between each
/// pair.
pub open spec fn join_blank_lines(errs: Seq<Seq<char>>) -> Seq<char>
    decreases errs.len(),
{
    if errs.len() == 0 {
        Seq::empty()
    } else if errs.len() == 1 {
        errs[0]
    } else {
        join_blank_lines(errs.drop_last()) + "\n\n"@ + errs.last()
    }
}

/// The aggregated parse-stage message: a header naming the file, a blank
/// line, then every error's description, blank-line separated.
pub open spec fn spec_parse_failure_message(filename: Seq<char>, errs: Seq<Seq<char>>) -> Seq<
    char,
> {
    "Failed to parse "@ + filename + ":\n\n"@ + join_blank_lines(errs)
}

/// Join the rendered error descriptions with one blank line between each
/// pair.
pub fn join_errors(errs: &Vec<String>) -> (r: String)
    ensures
        r@ =~= join_blank_lines(errs.deep_view()),
{
    let mut r = String::new();
    let mut i: usize = 0;
    while i < errs.len()
        invariant
            i <= errs.len(),
            r@ =~= join_blank_lines(errs.deep_view().take(i as int)),
        decreases errs.len() - i,
    {
        if i > 0 {
            r.append("\n\n");
        }
        r.append(errs[i].as_str());
        proof {
            let dv = errs.deep_view();
            assert(dv.take(i + 1).drop_last() =~= dv.take(i as int));
            assert(dv.take(i + 1).last() == dv[i as int]);
            assert(r@ =~= join_blank_lines(dv.take(i + 1)));
        }
        i = i + 1;
    }
    proof {
        assert(errs.deep_view().take(errs.len() as int) =~= errs.deep_view());
    }
    r
}

/// Aggregate the parse stage's rendered errors into a `ParseFailure`.
pub fn parse_failure(filename: &str, rendered: &Vec<String>) -> (r: TransformError)
    ensures
        r matches TransformError::ParseFailure(m) && m@ =~= spec_parse_failure_message(
            filename@,
            rendered.deep_view(),
        ),
{
    let mut s = "Failed to parse ".to_owned();
    s.append(filename);
    s.append(":\n\n");
    let joined = join_errors(rendered);
    s.append(joined.as_str());
    TransformError::ParseFailure(s)
}

/// Decide the parse stage's outcome: the stage succeeds exactly when the
/// parser reported no error; otherwise every error is aggregated into one
/// `ParseFailure` under a header naming the file.
pub fn parse_stage_result(filename: &str, rendered: &Vec<String>) -> (r: Result<
    (),
    TransformError,
>)
    ensures
        (r is Ok) <==> rendered@.len() == 0,
        r matches Err(e) ==> (e matches TransformError::ParseFailure(m) && m@
            =~= spec_parse_failure_message(filename@, rendered.deep_view())),
{
    if rendered.len() > 0 {
        Err(parse_failure(filename, rendered))
    } else {
        Ok(())
    }
}

/// Decide the transform stage's outcome: the stage succeeds exactly when
/// the transformer reported no error; otherwise a `TransformFailure`
/// carries only the first reported error, discarding the rest.
pub fn transform_stage_result(rendered: &Vec<String>) -> (r: Result<(), TransformError>)
    ensures
        (r is Ok) <==> rendered@.len() == 0,
        r matches Err(e) ==> (e matches TransformError::TransformFailure(m) && m@
            == rendered.deep_view()[0]),
{
    if rendered.len() > 0 {
        Err(TransformError::TransformFailure(rendered[0].clone()))
    } else {
        Ok(())
    }
}

} // verus!
