//! The token-generation core: a secure generator drawing from OS entropy,
//! and a vulnerable one whose "randomness" is fully determined by a fixed
//! all-ones seed, so that its output is predictable for any user identifier.

use vstd::prelude::*;

verus! {

/// The seed byte the vulnerable generator repeats 32 times to build its
/// fixed seed. It is a compile-time constant: that is the injected flaw.
pub const SEED_BYTE: u8 = 1;

pub open spec fn is_decimal_digit(c: char) -> bool {
    '0' <= c && c <= '9'
}

/// The character for a single decimal digit.
pub open spec fn digit_char(d: nat) -> char {
    if d == 0 {
        '0'
    } else if d == 1 {
        '1'
    } else if d == 2 {
        '2'
    } else if d == 3 {
        '3'
    } else if d == 4 {
        '4'
    } else if d == 5 {
        '5'
    } else if d == 6 {
        '6'
    } else if d == 7 {
        '7'
    } else if d == 8 {
        '8'
    } else {
        '9'
    }
}

/// The decimal rendering of a natural number, most significant digit first,
/// with no sign, no leading zeros (except for zero itself) and no separators.
pub open spec fn decimal_of(n: nat) -> Seq<char>
    decreases n,
{
    if n < 10 {
        seq![digit_char(n)]
    } else {
        decimal_of(n / 10) + seq![digit_char(n % 10)]
    }
}

/// The decimal rendering is never empty and consists of digits alone.
pub proof fn lemma_decimal_of_digits(n: nat)
    ensures
        decimal_of(n).len() >= 1,
        forall|i: int| 0 <= i < decimal_of(n).len() ==> is_decimal_digit(#[trigger] decimal_of(n)[i]),
    decreases n,
{
    if n >= 10 {
        lemma_decimal_of_digits(n / 10);
    }
}

fn digit_str(d: u32) -> (r: &'static str)
    requires
        d < 10,
    ensures
        r@ == seq![digit_char(d as nat)],
{
    proof {
        reveal_strlit("0");
        reveal_strlit("1");
        reveal_strlit("2");
        reveal_strlit("3");
        reveal_strlit("4");
        reveal_strlit("5");
        reveal_strlit("6");
        reveal_strlit("7");
        reveal_strlit("8");
        reveal_strlit("9");
    }
    let r: &'static str = if d == 0 {
        "0"
    } else if d == 1 {
        "1"
    } else if d == 2 {
        "2"
    } else if d == 3 {
        "3"
    } else if d == 4 {
        "4"
    } else if d == 5 {
        "5"
    } else if d == 6 {
        "6"
    } else if d == 7 {
        "7"
    } else if d == 8 {
        "8"
    } else {
        "9"
    };
    proof {
        assert(r@ =~= seq![digit_char(d as nat)]);
    }
    r
}

/// The first 32-bit value drawn from rand's `StdRng` when it is seeded with
/// a 32-byte seed whose every byte is `seed_byte`. The generator is a pure
/// deterministic function of its seed, so this value depends on the seed
/// byte alone: the same in every process and on every machine.
pub uninterp spec fn std_rng_first_u32(seed_byte: u8) -> u32;

/// Relies on rand's `StdRng` (`SeedableRng::from_seed` and `Rng::gen`): the
/// generator is deterministic, so the first `u32` drawn after seeding with
/// `[seed_byte; 32]` is a function of `seed_byte` alone.
#[verifier::external_body]
fn draw_seeded_u32(seed_byte: u8) -> (r: u32)
    ensures
        r == std_rng_first_u32(seed_byte),
{
    let seed: [u8; 32] = [seed_byte; 32];
    let mut rng: rand::rngs::StdRng = rand::SeedableRng::from_seed(seed);
    rand::Rng::gen(&mut rng)
}

/// The token the vulnerable generator returns for a given user identifier:
/// the identifier itself, a hyphen, then the decimal rendering of the one
/// predictable draw from the fixed-seed generator.
pub open spec fn vulnerable_token(user_id: Seq<char>) -> Seq<char> {
    user_id + seq!['-'] + decimal_of(std_rng_first_u32(SEED_BYTE) as nat)
}

/// The predictable strategy: seeds a fresh pseudo-random generator from the
/// fixed all-ones seed on every call, draws one 32-bit value, and returns
/// `user_id`, a hyphen, and that value in decimal. For a fixed `user_id` the
/// result is identical on every call.
pub fn generate_vulnerable_token(user_id: &str) -> (r: String)
    ensures
        r@ == vulnerable_token(user_id@),
{
    let n = draw_seeded_u32(SEED_BYTE);
    let mut s = String::from_str(user_id);
    s.append("-");
    push_decimal(&mut s, n);
    proof {
        reveal_strlit("-");
        assert(s@ =~= vulnerable_token(user_id@));
    }
    s
}

/// Appends the decimal rendering of `n` to `s`.
fn push_decimal(s: &mut String, n: u32)
    ensures
        final(s)@ == old(s)@ + decimal_of(n as nat),
    decreases n,
{
    if n >= 10 {
        push_decimal(s, n / 10);
        s.append(digit_str(n % 10));
        proof {
            assert(n as nat / 10 == (n / 10) as nat);
            assert(n as nat % 10 == (n % 10) as nat);
            assert(s@ =~= old(s)@ + decimal_of(n as nat));
        }
    } else {
        s.append(digit_str(n));
        proof {
            assert(s@ =~= old(s)@ + decimal_of(n as nat));
        }
    }
}

/// Determinism of the vulnerable generator: its token is a function of the
/// user identifier alone, so any two tokens issued for the same identifier,
/// in whatever calls, processes or machines, are equal.
pub proof fn lemma_vulnerable_token_deterministic(u: Seq<char>, t1: Seq<char>, t2: Seq<char>)
    requires
        t1 == vulnerable_token(u),
        t2 == vulnerable_token(u),
    ensures
        t1 == t2,
{
}

/// The core exploitable property: the tokens issued to any two user
/// identifiers carry the identical suffix — a hyphen and the same numeric
/// text — so only the prefix differs.
pub proof fn lemma_vulnerable_tokens_share_suffix(u1: Seq<char>, u2: Seq<char>)
    ensures
        vulnerable_token(u1).skip(u1.len() as int) == vulnerable_token(u2).skip(u2.len() as int),
{
    let suffix = seq!['-'] + decimal_of(std_rng_first_u32(SEED_BYTE) as nat);
    assert(vulnerable_token(u1).skip(u1.len() as int) =~= suffix);
    assert(vulnerable_token(u2).skip(u2.len() as int) =~= suffix);
}

/// The shape of a vulnerable token: the user identifier verbatim, one
/// hyphen, then one or more decimal digits, and nothing else.
pub proof fn lemma_vulnerable_token_shape(u: Seq<char>)
    ensures
        vulnerable_token(u).len() >= u.len() + 2,
        vulnerable_token(u).subrange(0, u.len() as int) == u,
        vulnerable_token(u)[u.len() as int] == '-',
        forall|i: int|
            u.len() + 1 <= i < vulnerable_token(u).len() ==> is_decimal_digit(
                #[trigger] vulnerable_token(u)[i],
            ),
{
    let n = std_rng_first_u32(SEED_BYTE) as nat;
    lemma_decimal_of_digits(n);
    assert(vulnerable_token(u).subrange(0, u.len() as int) =~= u);
}

pub open spec fn is_lower_hex_digit(c: char) -> bool {
    ('0' <= c && c <= '9') || ('a' <= c && c <= 'f')
}

/// The positions of the four hyphens in a hyphenated UUID.
pub open spec fn is_uuid_hyphen_position(i: int) -> bool {
    i == 8 || i == 13 || i == 18 || i == 23
}

/// The canonical text of a random (version-4, RFC-4122-variant) UUID:
/// 32 lowercase hexadecimal digits in five hyphen-separated groups, with the
/// version nibble `4` and a variant nibble among `8`, `9`, `a`, `b`.
pub open spec fn is_uuid_v4_text(s: Seq<char>) -> bool {
    &&& s.len() == 36
    &&& forall|i: int| 0 <= i < 36 && is_uuid_hyphen_position(i) ==> #[trigger] s[i] == '-'
    &&& forall|i: int| 0 <= i < 36 && !is_uuid_hyphen_position(i) ==> is_lower_hex_digit(#[trigger] s[i])
    &&& s[14] == '4'
    &&& (s[19] == '8' || s[19] == '9' || s[19] == 'a' || s[19] == 'b')
}

/// Relies on uuid's `Uuid::new_v4` and its `Display`: a fresh random UUID
/// with the version and variant bits forced to version 4 and RFC 4122,
/// rendered in the hyphenated lowercase-hexadecimal form.
#[verifier::external_body]
fn new_v4_hyphenated() -> (r: String)
    ensures
        is_uuid_v4_text(r@),
{
    uuid::Uuid::new_v4().to_string()
}

/// The secure strategy: a 128-bit random identifier drawn from the operating
/// system's entropy, rendered in its canonical 36-character text form.
/// Distinct calls are independent draws and carry no exploitable structure.
pub fn generate_secure_token() -> (r: String)
    ensures
        is_uuid_v4_text(r@),
{
    new_v4_hyphenated()
}

fn is_hyphen_position(i: usize) -> (r: bool)
    ensures
        r == is_uuid_hyphen_position(i as int),
{
    i == 8 || i == 13 || i == 18 || i == 23
}

fn is_lower_hex(c: char) -> (r: bool)
    ensures
        r == is_lower_hex_digit(c),
{
    ('0' <= c && c <= '9') || ('a' <= c && c <= 'f')
}

/// Decides whether `s` is the canonical text of a random UUID, exactly as
/// the secure generator's guarantee states it.
pub fn is_uuid_v4_format(s: &str) -> (r: bool)
    ensures
        r == is_uuid_v4_text(s@),
{
    let len = s.unicode_len();
    if len != 36 {
        return false;
    }
    let mut i: usize = 0;
    while i < 36
        invariant
            0 <= i <= 36,
            s@.len() == 36,
            forall|j: int| 0 <= j < i && is_uuid_hyphen_position(j) ==> #[trigger] s@[j] == '-',
            forall|j: int| 0 <= j < i && !is_uuid_hyphen_position(j) ==> is_lower_hex_digit(#[trigger] s@[j]),
        decreases 36 - i,
    {
        let c = s.get_char(i);
        if is_hyphen_position(i) {
            if c != '-' {
                return false;
            }
        } else {
            if !is_lower_hex(c) {
                return false;
            }
        }
        i = i + 1;
    }
    let version = s.get_char(14);
    if version != '4' {
        return false;
    }
    let variant = s.get_char(19);
    variant == '8' || variant == '9' || variant == 'a' || variant == 'b'
}

} // verus!
