//! The Redis command builders that the library uses, with what each adds to
//! a pipeline or a command, argument by argument, as the bytes that go on the
//! wire.

use vstd::prelude::*;
use vstd::utf8::encode_utf8;
use redis::{Cmd, Pipeline};

verus! {

#[verifier::external_type_specification]
#[verifier::external_body]
pub struct ExPipeline(redis::Pipeline);

#[verifier::external_type_specification]
#[verifier::external_body]
pub struct ExCmd(redis::Cmd);

/// The commands that a pipeline holds, in order; each command is its list
/// of arguments (the command's name first), each argument a byte string.
pub uninterp spec fn pipeline_commands(p: Pipeline) -> Seq<Seq<Seq<u8>>>;

/// The arguments of a single command (its name first), each a byte string.
pub uninterp spec fn command_args(c: Cmd) -> Seq<Seq<u8>>;

/// The UTF-8 bytes of a text: what Redis receives for a `&str` or `String`
/// argument.
pub open spec fn utf8(s: Seq<char>) -> Seq<u8> {
    encode_utf8(s)
}

/// The decimal digits of `n` in ASCII, without leading zeros: what Redis
/// receives for an integer argument.
pub open spec fn decimal(n: nat) -> Seq<u8>
    decreases n,
{
    if n < 10 {
        seq![(48 + n) as u8]
    } else {
        decimal(n / 10).push((48 + n % 10) as u8)
    }
}

/// Calls `redis::pipe`, which returns `Pipeline::new()`: a pipeline with no
/// commands.
#[verifier::external_body]
pub(crate) fn new_pipeline() -> (p: Pipeline)
    ensures
        pipeline_commands(p) == Seq::<Seq<Seq<u8>>>::empty(),
{
    redis::pipe()
}

/// Calls `Pipeline::set_ex`, which adds the command
/// `cmd("SETEX").arg(key).arg(seconds).arg(value)`: a `&str` argument is
/// written as its bytes, a `usize` in decimal by `itoa`, and a `&[u8]` as
/// one argument holding the bytes themselves (`ToRedisArgs::make_arg_vec`
/// for `u8`).
#[verifier::external_body]
pub(crate) fn pipe_set_ex(p: &mut Pipeline, key: &str, value: &[u8], seconds: usize)
    ensures
        pipeline_commands(*final(p)) == pipeline_commands(*old(p)).push(
            seq![utf8("SETEX"@), utf8(key@), decimal(seconds as nat), value@],
        ),
{
    p.set_ex(key, value, seconds);
}

/// Calls `Pipeline::zrembyscore`, which adds
/// `cmd("ZREMRANGEBYSCORE").arg(key).arg(min).arg(max)`.
#[verifier::external_body]
pub(crate) fn pipe_zrembyscore(p: &mut Pipeline, key: &str, min: &str, max: u64)
    ensures
        pipeline_commands(*final(p)) == pipeline_commands(*old(p)).push(
            seq![utf8("ZREMRANGEBYSCORE"@), utf8(key@), utf8(min@), decimal(max as nat)],
        ),
{
    p.zrembyscore(key, min, max);
}

/// Calls `Pipeline::zadd`, which adds `cmd("ZADD").arg(key).arg(score).arg(member)`:
/// the score comes before the member.
#[verifier::external_body]
pub(crate) fn pipe_zadd(p: &mut Pipeline, key: &str, member: &str, score: u64)
    ensures
        pipeline_commands(*final(p)) == pipeline_commands(*old(p)).push(
            seq![utf8("ZADD"@), utf8(key@), decimal(score as nat), utf8(member@)],
        ),
{
    p.zadd(key, member, score);
}

/// Calls `Pipeline::del`, which adds `cmd("DEL").arg(key)`.
#[verifier::external_body]
pub(crate) fn pipe_del(p: &mut Pipeline, key: &str)
    ensures
        pipeline_commands(*final(p)) == pipeline_commands(*old(p)).push(
            seq![utf8("DEL"@), utf8(key@)],
        ),
{
    p.del(key);
}

/// Calls `Pipeline::cmd`, which adds the command `cmd(name)`: a command whose
/// only argument so far is its name.
#[verifier::external_body]
pub(crate) fn pipe_cmd(p: &mut Pipeline, name: &str)
    ensures
        pipeline_commands(*final(p)) == pipeline_commands(*old(p)).push(seq![utf8(name@)]),
{
    p.cmd(name);
}

/// Calls `Pipeline::arg`, which appends one argument to the last command of
/// the pipeline; a `&[u8]` is one argument holding those bytes. The method
/// panics on a pipeline without commands, which `requires` rules out.
#[verifier::external_body]
pub(crate) fn pipe_arg(p: &mut Pipeline, arg: &[u8])
    requires
        pipeline_commands(*old(p)).len() > 0,
    ensures
        pipeline_commands(*final(p)) == pipeline_commands(*old(p)).update(
            pipeline_commands(*old(p)).len() - 1,
            pipeline_commands(*old(p)).last().push(arg@),
        ),
{
    p.arg(arg);
}

/// Calls `redis::cmd`, which returns `Cmd::new().arg(name)`: a command whose
/// only argument is its name.
#[verifier::external_body]
pub(crate) fn new_cmd(name: &str) -> (c: Cmd)
    ensures
        command_args(c) == seq![utf8(name@)],
{
    redis::cmd(name)
}

/// Calls `Cmd::arg`, which appends one argument to the command; a `&[u8]`
/// is one argument holding those bytes.
#[verifier::external_body]
pub(crate) fn cmd_arg(c: &mut Cmd, arg: &[u8])
    ensures
        command_args(*final(c)) == command_args(*old(c)).push(arg@),
{
    c.arg(arg);
}

/// Writes `n` in decimal, as `itoa` does for an integer argument.
pub fn decimal_bytes(n: u64) -> (digits: Vec<u8>)
    ensures
        digits@ == decimal(n as nat),
    decreases n,
{
    if n < 10 {
        let mut digits = Vec::new();
        digits.push(48 + n as u8);
        digits
    } else {
        let mut digits = decimal_bytes(n / 10);
        digits.push(48 + (n % 10) as u8);
        digits
    }
}

/// The number that a string of ASCII decimal digits stands for.
pub open spec fn digits_value(digits: Seq<u8>) -> int
    decreases digits.len(),
{
    if digits.len() == 0 {
        0
    } else {
        10 * digits_value(digits.drop_last()) + (digits.last() - 48)
    }
}

/// The decimal text of `n` is made of ASCII digits only, stands for `n`,
/// and has no leading zero (but for `0` itself).
pub proof fn decimal_writes_the_number(n: nat)
    ensures
        decimal(n).len() >= 1,
        forall|i: int| 0 <= i < decimal(n).len() ==> 48 <= #[trigger] decimal(n)[i] <= 57,
        digits_value(decimal(n)) == n,
        n > 0 ==> decimal(n)[0] != 48,
    decreases n,
{
    if n >= 10 {
        decimal_writes_the_number(n / 10);
        let init = decimal(n / 10);
        let d = decimal(n);
        assert(d.drop_last() =~= init);
        assert forall|i: int| 0 <= i < d.len() implies 48 <= #[trigger] d[i] <= 57 by {
            if i < d.len() - 1 {
                assert(d[i] == init[i]);
            }
        }
        assert(d[0] == init[0]);
        assert(d.last() == (48 + n % 10) as u8);
        assert(n == 10 * (n / 10) + n % 10);
        assert(digits_value(d) == 10 * digits_value(init) + (d.last() - 48));
    } else {
        let d = decimal(n);
        assert(d.drop_last() =~= Seq::<u8>::empty());
        assert(digits_value(d.drop_last()) == 0);
        assert(d.last() == (48 + n) as u8);
        assert(digits_value(d) == 10 * digits_value(d.drop_last()) + (d.last() - 48));
    }
}

} // verus!
