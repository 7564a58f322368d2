//! Remote mirror key scheme.
//!
//! Each cached entity is addressable in the shared key-value store by a
//! deterministic string key of the form `c:<entity-kind>:<id>`, with the id
//! written in decimal. Any process using the same scheme can read another
//! process's cached entities.

use vstd::prelude::*;

use vstd::string::StringExecFns;

use crate::model::{CachedChannel, CachedGuild, CachedRole};

verus! {

/// The decimal digit character for a value below ten.
pub open spec fn spec_digit_char(d: nat) -> char {
    if d == 0 {
        '0'
    } else if d == 1 {
        '1'
    } else if d == 2 {
        '2'
    } else if d == 3 {
        '3'
    } else if d == 4 {
        '4'
    } else if d == 5 {
        '5'
    } else if d == 6 {
        '6'
    } else if d == 7 {
        '7'
    } else if d == 8 {
        '8'
    } else {
        '9'
    }
}

/// The decimal representation of a number, most significant digit first, with
/// no leading zeroes.
pub open spec fn spec_decimal(n: nat) -> Seq<char>
    decreases n,
{
    if n < 10 {
        seq![spec_digit_char(n)]
    } else {
        spec_decimal(n / 10).push(spec_digit_char(n % 10))
    }
}

/// One decimal digit as a string slice.
fn digit_str(d: u64) -> (r: &'static str)
    requires
        d < 10,
    ensures
        r@ =~= seq![spec_digit_char(d as nat)],
{
    proof {
        reveal_strlit("0");
        reveal_strlit("1");
        reveal_strlit("2");
        reveal_strlit("3");
        reveal_strlit("4");
        reveal_strlit("5");
        reveal_strlit("6");
        reveal_strlit("7");
        reveal_strlit("8");
        reveal_strlit("9");
    }
    match d {
        0 => "0",
        1 => "1",
        2 => "2",
        3 => "3",
        4 => "4",
        5 => "5",
        6 => "6",
        7 => "7",
        8 => "8",
        _ => "9",
    }
}

/// Append the decimal representation of a number to a string.
fn push_decimal(s: &mut String, n: u64)
    ensures
        final(s)@ == old(s)@ + spec_decimal(n as nat),
    decreases n,
{
    if n >= 10 {
        push_decimal(s, n / 10);
        let d = digit_str(n % 10);
        s.append(d);
        proof {
            assert((old(s)@ + spec_decimal((n / 10) as nat)) + seq![
                spec_digit_char((n % 10) as nat),
            ] =~= old(s)@ + spec_decimal(n as nat));
        }
    } else {
        let d = digit_str(n);
        s.append(d);
        proof {
            assert(old(s)@ + seq![spec_digit_char(n as nat)] =~= old(s)@ + spec_decimal(n as nat));
        }
    }
}

/// The mirror key of a guild.
pub open spec fn spec_guild_key(id: u64) -> Seq<char> {
    "c:guild:"@ + spec_decimal(id as nat)
}

/// The mirror key of a channel.
pub open spec fn spec_channel_key(id: u64) -> Seq<char> {
    "c:channel:"@ + spec_decimal(id as nat)
}

/// The mirror key of a role.
pub open spec fn spec_role_key(id: u64) -> Seq<char> {
    "c:role:"@ + spec_decimal(id as nat)
}

impl CachedGuild {
    /// Mirror key for a guild id.
    pub fn key_from(id: &u64) -> (r: String)
        ensures
            r@ == spec_guild_key(*id),
    {
        let mut s = "c:guild:".to_owned();
        push_decimal(&mut s, *id);
        s
    }

    /// Mirror key of this guild.
    pub fn key(&self) -> (r: String)
        ensures
            r@ == spec_guild_key(self.id),
    {
        Self::key_from(&self.id)
    }
}

impl CachedChannel {
    /// Mirror key for a channel id.
    pub fn key_from(id: &u64) -> (r: String)
        ensures
            r@ == spec_channel_key(*id),
    {
        let mut s = "c:channel:".to_owned();
        push_decimal(&mut s, *id);
        s
    }

    /// Mirror key of this channel.
    pub fn key(&self) -> (r: String)
        ensures
            r@ == spec_channel_key(self@.id()),
    {
        let id = self.id();
        Self::key_from(&id)
    }
}

impl CachedRole {
    /// Mirror key for a role id.
    pub fn key_from(id: &u64) -> (r: String)
        ensures
            r@ == spec_role_key(*id),
    {
        let mut s = "c:role:".to_owned();
        push_decimal(&mut s, *id);
        s
    }

    /// Mirror key of this role.
    pub fn key(&self) -> (r: String)
        ensures
            r@ == spec_role_key(self.id),
    {
        Self::key_from(&self.id)
    }
}

/// A decimal representation has one character per digit, so a number of ten
/// or more never shares a representation with a single digit.
proof fn lemma_decimal_len(n: nat)
    ensures
        spec_decimal(n).len() >= 1,
        n >= 10 ==> spec_decimal(n).len() >= 2,
    decreases n,
{
    if n >= 10 {
        lemma_decimal_len(n / 10);
    }
}

/// Decimal representations are unique: two numbers with the same digit
/// string are the same number.
proof fn lemma_decimal_injective(a: nat, b: nat)
    requires
        spec_decimal(a) == spec_decimal(b),
    ensures
        a == b,
    decreases a,
{
    lemma_decimal_len(a);
    lemma_decimal_len(b);
    if a < 10 && b < 10 {
        assert(seq![spec_digit_char(a)][0] == spec_digit_char(a));
        assert(seq![spec_digit_char(b)][0] == spec_digit_char(b));
        assert(spec_digit_char(a) == spec_digit_char(b));
    } else if a < 10 || b < 10 {
        assert(false);
    } else {
        let ra = spec_decimal(a / 10);
        let rb = spec_decimal(b / 10);
        assert(ra.push(spec_digit_char(a % 10)).last() == spec_digit_char(a % 10));
        assert(rb.push(spec_digit_char(b % 10)).last() == spec_digit_char(b % 10));
        assert(ra =~= rb) by {
            assert(ra.push(spec_digit_char(a % 10)).drop_last() =~= ra);
            assert(rb.push(spec_digit_char(b % 10)).drop_last() =~= rb);
        }
        lemma_decimal_injective(a / 10, b / 10);
        assert(a % 10 == b % 10);
        assert(a == (a / 10) * 10 + a % 10) by (nonlinear_arith);
        assert(b == (b / 10) * 10 + b % 10) by (nonlinear_arith);
    }
}

/// Two keys of the same entity kind agree only on the same id, so every
/// entity is addressable: within its kind, its key belongs to it alone.
pub proof fn lemma_key_scheme_injective(a: u64, b: u64)
    ensures
        spec_guild_key(a) == spec_guild_key(b) ==> a == b,
        spec_channel_key(a) == spec_channel_key(b) ==> a == b,
        spec_role_key(a) == spec_role_key(b) ==> a == b,
{
    if spec_guild_key(a) == spec_guild_key(b) {
        lemma_prefixed_equal("c:guild:"@, spec_decimal(a as nat), spec_decimal(b as nat));
        lemma_decimal_injective(a as nat, b as nat);
    }
    if spec_channel_key(a) == spec_channel_key(b) {
        lemma_prefixed_equal("c:channel:"@, spec_decimal(a as nat), spec_decimal(b as nat));
        lemma_decimal_injective(a as nat, b as nat);
    }
    if spec_role_key(a) == spec_role_key(b) {
        lemma_prefixed_equal("c:role:"@, spec_decimal(a as nat), spec_decimal(b as nat));
        lemma_decimal_injective(a as nat, b as nat);
    }
}

/// Appending to a common prefix is cancellative.
proof fn lemma_prefixed_equal(p: Seq<char>, s1: Seq<char>, s2: Seq<char>)
    requires
        p + s1 == p + s2,
    ensures
        s1 == s2,
{
    assert(s1 =~= (p + s1).skip(p.len() as int));
    assert(s2 =~= (p + s2).skip(p.len() as int));
}

} // verus!
