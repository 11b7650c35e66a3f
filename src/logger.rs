//! The kernel's serial log: the line written for a message from user space,
//! and the setup of the `log` facade's level.
use vstd::prelude::*;
use vstd::string::StringSliceAdditionalSpecFns;

verus! {

pub const DIGIT_ZERO: u8 = 48;
pub const SPACE: u8 = 32;
pub const COLON: u8 = 58;
pub const UPPER_U: u8 = 85;
pub const UPPER_S: u8 = 83;
pub const UPPER_E: u8 = 69;
pub const UPPER_R: u8 = 82;
pub const NEWLINE: u8 = 10;
pub const CARRIAGE_RETURN: u8 = 13;
pub const DASH: u8 = 45;

/// The decimal digits of `n`, most significant first.
pub open spec fn dec(n: nat) -> Seq<u8>
    decreases n,
{
    if n < 10 {
        seq![(DIGIT_ZERO + n) as u8]
    } else {
        dec(n / 10).push((DIGIT_ZERO + n % 10) as u8)
    }
}

/// `s` right-aligned in a field of `width`, filled with `fill`.
pub open spec fn pad_left(s: Seq<u8>, width: nat, fill: u8) -> Seq<u8> {
    if s.len() >= width {
        s
    } else {
        Seq::new((width - s.len()) as nat, |i: int| fill) + s
    }
}

/// `s` left-aligned in a field of `width`, filled with spaces.
pub open spec fn pad_right(s: Seq<u8>, width: nat) -> Seq<u8> {
    if s.len() >= width {
        s
    } else {
        s + Seq::new((width - s.len()) as nat, |i: int| SPACE)
    }
}

/// The time and place that every line starts with: seconds since system
/// start right-aligned in three columns, milliseconds in three digits, then
/// the cpu in two columns.
pub open spec fn stamp(millis: nat, cpu: nat) -> Seq<u8> {
    pad_left(dec(millis / 1000), 3, SPACE) + seq![COLON] + pad_left(dec(millis % 1000), 3, DIGIT_ZERO)
        + seq![SPACE] + pad_left(dec(cpu), 2, SPACE) + seq![COLON, SPACE]
}

/// The line logged for `msg` from the thread named `thread`, `millis` after
/// system start, on `cpu`: the stamp, the tag `USER` in six columns, the
/// thread's name and the message.
pub open spec fn user_line(thread: Seq<u8>, millis: nat, cpu: nat, msg: Seq<u8>) -> Seq<u8> {
    stamp(millis, cpu) + pad_right(seq![UPPER_U, UPPER_S, UPPER_E, UPPER_R], 6) + seq![SPACE]
        + thread + seq![COLON, SPACE] + msg + seq![NEWLINE, CARRIAGE_RETURN]
}

/// The line logged for a kernel record: the stamp, the level in six
/// columns, the record's source as target and line, and the message.
pub open spec fn record_line(millis: nat, cpu: nat, level: Seq<u8>, target: Seq<u8>, line: nat, msg: Seq<u8>) -> Seq<u8> {
    stamp(millis, cpu) + pad_right(level, 6) + seq![SPACE] + target + seq![COLON] + dec(line)
        + seq![SPACE, DASH, SPACE] + msg + seq![NEWLINE, CARRIAGE_RETURN]
}

/// Appends the decimal digits of `n` to `out`.
fn push_dec(out: &mut Vec<u8>, n: u64)
    ensures
        final(out)@ == old(out)@ + dec(n as nat),
    decreases n,
{
    if n >= 10 {
        push_dec(out, n / 10);
    }
    out.push(DIGIT_ZERO + (n % 10) as u8);
    proof {
        if n >= 10 {
            assert(out@ =~= old(out)@ + dec(n as nat));
        } else {
            assert(out@ =~= old(out)@ + dec(n as nat));
        }
    }
}

/// Appends `count` copies of `fill` to `out`.
fn push_fill(out: &mut Vec<u8>, count: usize, fill: u8)
    ensures
        final(out)@ == old(out)@ + Seq::new(count as nat, |i: int| fill),
{
    let mut k: usize = 0;
    while k < count
        invariant
            k <= count,
            out@ == old(out)@ + Seq::new(k as nat, |i: int| fill),
        decreases count - k,
    {
        out.push(fill);
        k = k + 1;
        assert(out@ =~= old(out)@ + Seq::new(k as nat, |i: int| fill));
    }
}

/// Appends `bytes` to `out`.
fn push_bytes(out: &mut Vec<u8>, bytes: &[u8])
    ensures
        final(out)@ == old(out)@ + bytes@,
{
    let mut k: usize = 0;
    while k < bytes.len()
        invariant
            k <= bytes@.len(),
            out@ == old(out)@ + bytes@.subrange(0, k as int),
        decreases bytes@.len() - k,
    {
        out.push(bytes[k]);
        k = k + 1;
        assert(out@ =~= old(out)@ + bytes@.subrange(0, k as int));
    }
    assert(bytes@.subrange(0, k as int) =~= bytes@);
}

/// Appends `n` in decimal, right-aligned in `width` columns filled with `fill`.
fn push_dec_padded(out: &mut Vec<u8>, n: u64, width: usize, fill: u8)
    ensures
        final(out)@ == old(out)@ + pad_left(dec(n as nat), width as nat, fill),
{
    let mut digits: Vec<u8> = Vec::new();
    push_dec(&mut digits, n);
    assert(digits@ =~= dec(n as nat));
    if digits.len() < width {
        push_fill(out, width - digits.len(), fill);
    }
    push_bytes(out, digits.as_slice());
    assert(out@ =~= old(out)@ + pad_left(dec(n as nat), width as nat, fill));
}

/// Appends `bytes` left-aligned in `width` columns filled with spaces.
fn push_padded_right(out: &mut Vec<u8>, bytes: &[u8], width: usize)
    ensures
        final(out)@ == old(out)@ + pad_right(bytes@, width as nat),
{
    push_bytes(out, bytes);
    if bytes.len() < width {
        push_fill(out, width - bytes.len(), SPACE);
    }
    assert(out@ =~= old(out)@ + pad_right(bytes@, width as nat));
}

/// Appends the stamp for `millis` and `cpu`.
fn push_stamp(out: &mut Vec<u8>, millis: u64, cpu: u32)
    ensures
        final(out)@ == old(out)@ + stamp(millis as nat, cpu as nat),
{
    push_dec_padded(out, millis / 1000, 3, SPACE);
    out.push(COLON);
    push_dec_padded(out, millis % 1000, 3, DIGIT_ZERO);
    out.push(SPACE);
    push_dec_padded(out, cpu as u64, 2, SPACE);
    out.push(COLON);
    out.push(SPACE);
    assert(out@ =~= old(out)@ + stamp(millis as nat, cpu as nat));
}

/// The line that the serial log receives for `msg` from user space; see
/// `user_line`.
pub fn log_user(thread_name: &str, elapsed_millis: u64, cpu: u32, msg: &str) -> (line: Vec<u8>)
    ensures
        line@ == user_line(thread_name.spec_bytes(), elapsed_millis as nat, cpu as nat, msg.spec_bytes()),
{
    let mut line: Vec<u8> = Vec::new();
    push_stamp(&mut line, elapsed_millis, cpu);
    let tag: [u8; 4] = [UPPER_U, UPPER_S, UPPER_E, UPPER_R];
    push_padded_right(&mut line, tag.as_slice(), 6);
    line.push(SPACE);
    push_bytes(&mut line, thread_name.as_bytes());
    line.push(COLON);
    line.push(SPACE);
    push_bytes(&mut line, msg.as_bytes());
    line.push(NEWLINE);
    line.push(CARRIAGE_RETURN);
    proof {
        assert(tag@ =~= seq![UPPER_U, UPPER_S, UPPER_E, UPPER_R]);
        assert(line@ =~= user_line(thread_name.spec_bytes(), elapsed_millis as nat, cpu as nat, msg.spec_bytes()));
    }
    line
}

/// The line that the serial log receives for a kernel record; see
/// `record_line`.
pub fn log_record(elapsed_millis: u64, cpu: u32, level: &str, target: &str, line_no: u32, msg: &str) -> (line: Vec<u8>)
    ensures
        line@ == record_line(
            elapsed_millis as nat,
            cpu as nat,
            level.spec_bytes(),
            target.spec_bytes(),
            line_no as nat,
            msg.spec_bytes(),
        ),
{
    let mut line: Vec<u8> = Vec::new();
    push_stamp(&mut line, elapsed_millis, cpu);
    push_padded_right(&mut line, level.as_bytes(), 6);
    line.push(SPACE);
    push_bytes(&mut line, target.as_bytes());
    line.push(COLON);
    push_dec(&mut line, line_no as u64);
    line.push(SPACE);
    line.push(DASH);
    line.push(SPACE);
    push_bytes(&mut line, msg.as_bytes());
    line.push(NEWLINE);
    line.push(CARRIAGE_RETURN);
    assert(line@ =~= record_line(
        elapsed_millis as nat,
        cpu as nat,
        level.spec_bytes(),
        target.spec_bytes(),
        line_no as nat,
        msg.spec_bytes(),
    ));
    line
}

/// The error that the `log` facade gives when a logger is registered twice.
#[verifier::external_type_specification]
#[verifier::external_body]
pub struct ExSetLoggerError(log::SetLoggerError);

/// The most verbose records that the facade passes on.
#[derive(Clone, Copy, Debug, PartialEq, Eq, Structural)]
pub enum MaxLevel {
    Debug,
    Info,
}

/// Debug builds pass debug records on; other builds stop at info.
pub open spec fn level_for_build(debug_build: bool) -> MaxLevel {
    if debug_build {
        MaxLevel::Debug
    } else {
        MaxLevel::Info
    }
}

/// Why logging could not be set up.
#[derive(Clone, Copy, Debug, PartialEq, Eq, Structural)]
pub enum LogInitError {
    /// Another logger was registered with the facade first.
    AlreadyRegistered,
}

/// Relies on `log::set_max_level`: sets the facade's process-wide level.
#[verifier::external_body]
fn set_max_level(level: MaxLevel) {
    log::set_max_level(
        match level {
            MaxLevel::Debug => log::LevelFilter::Debug,
            MaxLevel::Info => log::LevelFilter::Info,
        },
    );
}

/// Finishes setting up logging once the kernel logger's registration with
/// the facade has been tried: on success sets the level for this kind of
/// build and returns it; a failed registration is an error and sets nothing.
pub fn init_logging(registration: Result<(), log::SetLoggerError>, debug_build: bool) -> (r: Result<MaxLevel, LogInitError>)
    ensures
        registration is Ok <==> r is Ok,
        r is Ok ==> r->Ok_0 == level_for_build(debug_build),
        r is Err ==> r->Err_0 == LogInitError::AlreadyRegistered,
{
    match registration {
        Err(_) => Err(LogInitError::AlreadyRegistered),
        Ok(()) => {
            let level = if debug_build {
                MaxLevel::Debug
            } else {
                MaxLevel::Info
            };
            set_max_level(level);
            Ok(level)
        },
    }
}

} // verus!
