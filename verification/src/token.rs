//! The token guard: the single source of truth for the current bearer token.
//!
//! A bearer token is an opaque credential: 32 random bytes rendered as 64
//! lowercase hexadecimal characters. The guard starts empty and is only ever
//! replaced wholesale; a partial token is unrepresentable.

use vstd::prelude::*;

verus! {

/// One nibble as a lowercase hexadecimal digit.
pub open spec fn hex_digit_char(n: u8) -> char {
    if n == 0 {
        '0'
    } else if n == 1 {
        '1'
    } else if n == 2 {
        '2'
    } else if n == 3 {
        '3'
    } else if n == 4 {
        '4'
    } else if n == 5 {
        '5'
    } else if n == 6 {
        '6'
    } else if n == 7 {
        '7'
    } else if n == 8 {
        '8'
    } else if n == 9 {
        '9'
    } else if n == 10 {
        'a'
    } else if n == 11 {
        'b'
    } else if n == 12 {
        'c'
    } else if n == 13 {
        'd'
    } else if n == 14 {
        'e'
    } else {
        'f'
    }
}

/// A character that can appear in a bearer token.
pub open spec fn is_lower_hex_char(c: char) -> bool {
    exists|n: u8| n < 16 && c == hex_digit_char(n)
}

/// The lowercase hexadecimal rendering of a byte string, high nibble first.
pub open spec fn hex_lower_of(bytes: Seq<u8>) -> Seq<char> {
    Seq::new(
        bytes.len() * 2,
        |i: int|
            if i % 2 == 0 {
                hex_digit_char((bytes[i / 2] / 16) as u8)
            } else {
                hex_digit_char((bytes[i / 2] % 16) as u8)
            },
    )
}

/// A fully formed bearer token: 64 lowercase hexadecimal characters.
pub open spec fn is_well_formed_token(t: Seq<char>) -> bool {
    &&& t.len() == 64
    &&& forall|i: int| 0 <= i < t.len() ==> is_lower_hex_char(#[trigger] t[i])
}

/// What token comparison means: a presented token authenticates exactly when
/// one is presented and it equals the stored one. Absence never
/// authenticates, even against a guard that holds no token.
pub open spec fn compare_spec(stored: Option<Seq<char>>, presented: Option<Seq<char>>) -> bool {
    match presented {
        Option::None => false,
        Option::Some(p) => stored == Option::Some(p),
    }
}

/// Relies on rand::random: 32 bytes drawn from the thread-local
/// cryptographically secure generator. Nothing is promised of their values.
#[verifier::external_body]
pub(crate) fn random_bytes_32() -> (r: Vec<u8>)
    ensures
        r@.len() == 32,
{
    rand::random::<[u8; 32]>().to_vec()
}

/// Relies on data_encoding::HEXLOWER.encode: each input byte becomes two
/// lowercase hexadecimal digits, high nibble first.
#[verifier::external_body]
fn hex_encode_lower(bytes: &Vec<u8>) -> (r: String)
    ensures
        r@ == hex_lower_of(bytes@),
{
    data_encoding::HEXLOWER.encode(bytes.as_slice())
}

/// Hex encoding yields two characters per byte, all of them lowercase
/// hexadecimal digits.
pub proof fn lemma_hex_lower_well_formed(bytes: Seq<u8>)
    ensures
        hex_lower_of(bytes).len() == 2 * bytes.len(),
        forall|i: int|
            0 <= i < hex_lower_of(bytes).len() ==> is_lower_hex_char(
                #[trigger] hex_lower_of(bytes)[i],
            ),
{
    assert forall|i: int|
        0 <= i < hex_lower_of(bytes).len() implies is_lower_hex_char(
        #[trigger] hex_lower_of(bytes)[i],
    ) by {
        let b = bytes[i / 2];
        if i % 2 == 0 {
            let n = (b / 16) as u8;
            assert(n < 16);
            assert(hex_lower_of(bytes)[i] == hex_digit_char(n));
        } else {
            let n = (b % 16) as u8;
            assert(n < 16);
            assert(hex_lower_of(bytes)[i] == hex_digit_char(n));
        }
    }
}

/// The token guard. The stored token is only ever replaced wholesale by
/// `generate_and_store`; no operation builds a token piecemeal.
pub struct TokenGuard {
    token: Option<String>,
}

impl View for TokenGuard {
    type V = Option<Seq<char>>;

    closed spec fn view(&self) -> Option<Seq<char>> {
        self.token.deep_view()
    }
}

impl TokenGuard {
    /// Whatever state the guard is in, it holds either no token at all or a
    /// fully formed one: a torn or partial token is unrepresentable.
    #[verifier::type_invariant]
    pub closed spec fn wf(self) -> bool {
        match self.token {
            Option::None => true,
            Option::Some(t) => is_well_formed_token(t@),
        }
    }

    /// A fresh guard holding no token.
    pub fn new() -> (g: TokenGuard)
        ensures
            g@ == Option::<Seq<char>>::None,
    {
        TokenGuard { token: None }
    }

    /// Draws 32 random bytes, encodes them as lowercase hexadecimal, and
    /// replaces the stored token wholesale with the result.
    pub fn generate_and_store(&mut self) -> (t: String)
        ensures
            final(self)@ == Option::Some(t@),
            is_well_formed_token(t@),
            exists|bs: Seq<u8>| bs.len() == 32 && t@ == hex_lower_of(bs),
    {
        let bytes = random_bytes_32();
        let t = hex_encode_lower(&bytes);
        proof {
            lemma_hex_lower_well_formed(bytes@);
        }
        self.token = Some(t.clone());
        t
    }

    /// Structural comparison of a presented token against the stored one.
    /// Since the guard can only hold whole tokens, whatever authenticates is
    /// a fully formed token, never an intermediate state.
    pub fn compare(&self, presented: &Option<String>) -> (r: bool)
        ensures
            r == compare_spec(self@, presented.deep_view()),
            r ==> (self@ matches Option::Some(t) && is_well_formed_token(t)),
    {
        proof {
            use_type_invariant(self);
        }
        match (presented, &self.token) {
            (Some(p), Some(t)) => p.eq(t),
            _ => false,
        }
    }
}

/// Law: absence never authenticates. Whatever the guard holds, presenting no
/// token fails.
pub proof fn lemma_none_never_authenticates(stored: Option<Seq<char>>)
    ensures
        !compare_spec(stored, Option::None),
{
}

/// Law: wholesale replacement. Once the guard holds token `b`, a different
/// earlier token `a` no longer authenticates, while `b` does.
pub proof fn lemma_wholesale_replacement(stored: Option<Seq<char>>, a: Seq<char>, b: Seq<char>)
    requires
        a != b,
        stored == Option::Some(b),
    ensures
        compare_spec(stored, Option::Some(b)),
        !compare_spec(stored, Option::Some(a)),
{
}

/// The guard state after a series of wholesale token replacements, applied in
/// the order in which the writes were serialized.
pub open spec fn apply_writes(initial: Option<Seq<char>>, writes: Seq<Seq<char>>) -> Option<
    Seq<char>,
>
    decreases writes.len(),
{
    if writes.len() == 0 {
        initial
    } else {
        apply_writes(Option::Some(writes[0]), writes.drop_first())
    }
}

/// Law: last writer wins. Serialized wholesale replacements leave the guard
/// holding exactly the last token written, and exactly that token
/// authenticates afterwards.
pub proof fn lemma_last_writer_wins(initial: Option<Seq<char>>, writes: Seq<Seq<char>>)
    requires
        writes.len() > 0,
    ensures
        apply_writes(initial, writes) == Option::Some(writes.last()),
        forall|t: Seq<char>|
            #[trigger] compare_spec(apply_writes(initial, writes), Option::Some(t)) <==> t
                == writes.last(),
    decreases writes.len(),
{
    if writes.len() == 1 {
        assert(apply_writes(initial, writes) == apply_writes(
            Option::Some(writes[0]),
            writes.drop_first(),
        ));
        assert(writes.drop_first().len() == 0);
        assert(apply_writes(Option::Some(writes[0]), writes.drop_first()) == Option::Some(
            writes[0],
        ));
        assert(writes.last() == writes[0]);
    } else {
        lemma_last_writer_wins(Option::Some(writes[0]), writes.drop_first());
        assert(writes.drop_first().last() == writes.last());
    }
}

} // verus!
