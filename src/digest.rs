use vstd::prelude::*;

use crate::text::join_with;
use vstd::string::StringSliceAdditionalSpecFns;

verus! {

broadcast use vstd::string::is_ascii_spec_bytes;

/// Hash algorithms a digest may name.
#[derive(Debug, Clone, Copy, PartialEq, Eq, Structural)]
pub enum DigestAlgorithm {
    Sha256,
    Sha512,
}

/// Why a digest string was not accepted.
#[derive(Debug, Clone, Copy, PartialEq, Eq, Structural)]
pub enum DigestError {
    /// No `:` separates the algorithm from the hex value.
    MissingSeparator,
    /// The algorithm token is not one this library knows.
    UnknownAlgorithm,
    /// The hex value has the wrong length or a character that is not a
    /// lower-case hex digit.
    InvalidHex,
}

/// The token that names an algorithm in a digest string.
pub open spec fn algorithm_token(a: DigestAlgorithm) -> Seq<char> {
    match a {
        DigestAlgorithm::Sha256 => seq!['s', 'h', 'a', '2', '5', '6'],
        DigestAlgorithm::Sha512 => seq!['s', 'h', 'a', '5', '1', '2'],
    }
}

/// The number of hex digits in a hash of the algorithm.
pub open spec fn hex_length(a: DigestAlgorithm) -> nat {
    match a {
        DigestAlgorithm::Sha256 => 64,
        DigestAlgorithm::Sha512 => 128,
    }
}

/// The algorithm that a token names, if any.
pub open spec fn algorithm_of_token(t: Seq<char>) -> Option<DigestAlgorithm> {
    if t == algorithm_token(DigestAlgorithm::Sha256) {
        Some(DigestAlgorithm::Sha256)
    } else if t == algorithm_token(DigestAlgorithm::Sha512) {
        Some(DigestAlgorithm::Sha512)
    } else {
        None
    }
}

pub open spec fn is_hex_digit(c: char) -> bool {
    ('0' <= c && c <= '9') || ('a' <= c && c <= 'f')
}

pub open spec fn is_hex_string(s: Seq<char>) -> bool {
    forall|i: int| 0 <= i < s.len() ==> #[trigger] is_hex_digit(s[i])
}

/// A hash value fits its algorithm: the right number of lower-case hex digits.
pub open spec fn valid_hash(a: DigestAlgorithm, h: Seq<char>) -> bool {
    h.len() == hex_length(a) && is_hex_string(h)
}

/// `algo:hex`, the text form of a digest.
pub open spec fn digest_text(a: DigestAlgorithm, h: Seq<char>) -> Seq<char> {
    algorithm_token(a) + seq![':'] + h
}

/// What a text parses to: the six-character algorithm token, a colon, and a
/// hash that fits that algorithm.
pub open spec fn parse_digest_text(t: Seq<char>) -> Option<(DigestAlgorithm, Seq<char>)> {
    if t.len() >= 7 && t[6] == ':' {
        match algorithm_of_token(t.subrange(0, 6)) {
            Some(a) => if valid_hash(a, t.subrange(7, t.len() as int)) {
                Some((a, t.subrange(7, t.len() as int)))
            } else {
                None
            },
            None => None,
        }
    } else {
        None
    }
}

/// `t` is `a`, a colon and `b`, where `a` holds no colon: the split of `t`
/// at its first colon.
pub open spec fn colon_split(t: Seq<char>, a: Seq<char>, b: Seq<char>) -> bool {
    t == a + seq![':'] + b && !a.contains(':')
}

proof fn lemma_colon_split_unique(
    t: Seq<char>,
    a1: Seq<char>,
    b1: Seq<char>,
    a2: Seq<char>,
    b2: Seq<char>,
)
    requires
        colon_split(t, a1, b1),
        colon_split(t, a2, b2),
    ensures
        a1 == a2 && b1 == b2,
{
    if a1.len() < a2.len() {
        assert(t[a1.len() as int] == ':');
        assert(a2[a1.len() as int] == ':');
    } else if a2.len() < a1.len() {
        assert(t[a2.len() as int] == ':');
        assert(a1[a2.len() as int] == ':');
    }
    assert(a1 =~= t.subrange(0, a1.len() as int));
    assert(a2 =~= t.subrange(0, a2.len() as int));
    assert(b1 =~= t.subrange(a1.len() as int + 1, t.len() as int));
    assert(b2 =~= t.subrange(a2.len() as int + 1, t.len() as int));
}

proof fn lemma_colon_split_contains(t: Seq<char>, a: Seq<char>, b: Seq<char>)
    requires
        colon_split(t, a, b),
    ensures
        t.contains(':'),
{
    assert(t[a.len() as int] == ':');
}

/// Relies on `str::split_once`: splits at the first `:` when there is one.
#[verifier::external_body]
fn split_at_colon(s: &str) -> (r: Option<(&str, &str)>)
    ensures
        r is None ==> !s@.contains(':'),
        r matches Some((a, b)) ==> colon_split(s@, a@, b@),
{
    s.split_once(':')
}

impl DigestAlgorithm {
    /// The algorithm that `token` names.
    pub fn from_token(token: &str) -> (r: Option<DigestAlgorithm>)
        ensures
            r == algorithm_of_token(token@),
    {
        let t = token.to_owned();
        let sha256 = "sha256".to_owned();
        let sha512 = "sha512".to_owned();
        proof {
            reveal_strlit("sha256");
            reveal_strlit("sha512");
            assert(sha256@ =~= algorithm_token(DigestAlgorithm::Sha256));
            assert(sha512@ =~= algorithm_token(DigestAlgorithm::Sha512));
        }
        if t == sha256 {
            Some(DigestAlgorithm::Sha256)
        } else if t == sha512 {
            Some(DigestAlgorithm::Sha512)
        } else {
            None
        }
    }

    /// The token that names the algorithm.
    pub fn as_str(&self) -> (r: &'static str)
        ensures
            r@ == algorithm_token(*self),
    {
        proof {
            reveal_strlit("sha256");
            reveal_strlit("sha512");
        }
        match self {
            DigestAlgorithm::Sha256 => "sha256",
            DigestAlgorithm::Sha512 => "sha512",
        }
    }

    /// The number of hex digits in a hash of this algorithm.
    pub fn hex_len(&self) -> (r: usize)
        ensures
            r == hex_length(*self),
    {
        match self {
            DigestAlgorithm::Sha256 => 64,
            DigestAlgorithm::Sha512 => 128,
        }
    }
}

/// Whether every character of `s` is a lower-case hex digit.
fn all_hex(s: &str) -> (r: bool)
    ensures
        r == is_hex_string(s@),
{
    if !s.is_ascii() {
        proof {
            let k = choose|k: int| 0 <= k < s@.len() && !('\0' <= #[trigger] s@[k] <= '\u{7f}');
            assert(!is_hex_digit(s@[k]));
        }
        return false;
    }
    let bytes = s.as_bytes();
    let mut i: usize = 0;
    while i < bytes.len()
        invariant
            0 <= i <= bytes@.len(),
            bytes@.len() == s@.len(),
            forall|k: int| 0 <= k < bytes@.len() ==> bytes@[k] == s@[k] as u8,
            forall|k: int| 0 <= k < s@.len() ==> '\0' <= #[trigger] s@[k] <= '\u{7f}',
            forall|k: int| 0 <= k < i ==> #[trigger] is_hex_digit(s@[k]),
        decreases bytes@.len() - i,
    {
        let b = bytes[i];
        let ok = (48 <= b && b <= 57) || (97 <= b && b <= 102);
        if !ok {
            assert(!is_hex_digit(s@[i as int]));
            return false;
        }
        assert(is_hex_digit(s@[i as int]));
        i = i + 1;
    }
    true
}

/// A content hash: the algorithm and its value as lower-case hex digits.
#[derive(Debug, Clone, PartialEq, Eq)]
pub struct Digest {
    pub algo: DigestAlgorithm,
    pub hash: String,
}

impl Digest {
    /// The hash fits the algorithm.
    pub open spec fn wf(&self) -> bool {
        valid_hash(self.algo, self.hash@)
    }

    /// Parses `algo:hex`; the algorithm must be known and the hex value must
    /// have that algorithm's length.
    pub fn parse(s: &str) -> (r: Result<Digest, DigestError>)
        ensures
            r is Ok <==> parse_digest_text(s@) is Some,
            r matches Ok(d) ==> parse_digest_text(s@) == Some((d.algo, d.hash@)) && d.wf(),
            r == Err::<Digest, DigestError>(DigestError::MissingSeparator) <==> !s@.contains(':'),
            r == Err::<Digest, DigestError>(DigestError::UnknownAlgorithm) <==> exists|
                a: Seq<char>,
                b: Seq<char>,
            | #[trigger] colon_split(s@, a, b) && algorithm_of_token(a) is None,
            r == Err::<Digest, DigestError>(DigestError::InvalidHex) <==> exists|
                a: Seq<char>,
                b: Seq<char>,
            |
                #[trigger] colon_split(s@, a, b) && (algorithm_of_token(a) matches Some(x)
                    && !valid_hash(x, b)),
    {
        let ghost t = s@;
        match split_at_colon(s) {
            None => {
                proof {
                    if t.len() >= 7 && t[6] == ':' {
                        assert(t.contains(':'));
                    }
                    assert forall|x: Seq<char>, y: Seq<char>| !colon_split(t, x, y) by {
                        if colon_split(t, x, y) {
                            lemma_colon_split_contains(t, x, y);
                        }
                    }
                }
                Err(DigestError::MissingSeparator)
            },
            Some((a, h)) => {
                proof {
                    lemma_colon_split_contains(t, a@, h@);
                    assert forall|x: Seq<char>, y: Seq<char>| colon_split(t, x, y) implies x == a@
                        && y == h@ by {
                        lemma_colon_split_unique(t, x, y, a@, h@);
                    }
                    if a@.len() > 6 {
                        assert(t[6] == a@[6]);
                    }
                    if a@.len() < 6 && t.len() >= 7 {
                        assert(t[a@.len() as int] == ':');
                        assert(t.subrange(0, 6)[a@.len() as int] == ':');
                    }
                }
                let algo = match DigestAlgorithm::from_token(a) {
                    Some(x) => x,
                    None => {
                        proof {
                            if t.len() >= 7 && t[6] == ':' && a@.len() == 6 {
                                assert(t.subrange(0, 6) =~= a@);
                            }
                        }
                        return Err(DigestError::UnknownAlgorithm);
                    },
                };
                assert(a@.len() == 6);
                assert(t.subrange(0, 6) =~= a@);
                assert(t.subrange(7, t.len() as int) =~= h@);
                assert(t[6] == ':');
                assert(algorithm_of_token(t.subrange(0, 6)) == Some(algo));
                let n = h.as_bytes().len();
                let expected = algo.hex_len();
                if !h.is_ascii() || n != expected || !all_hex(h) {
                    proof {
                        if is_hex_string(h@) && h@.len() == hex_length(algo) {
                            assert forall|k: int| 0 <= k < h@.len() implies '\0' <= #[trigger] h@[k]
                                <= '\u{7f}' by {
                                assert(is_hex_digit(h@[k]));
                            }
                            assert(vstd::string::is_ascii(h));
                        }
                    }
                    return Err(DigestError::InvalidHex);
                }
                assert(h.spec_bytes().len() == h@.len());
                assert(valid_hash(algo, h@));
                Ok(Digest { algo, hash: h.to_owned() })
            },
        }
    }

    /// `algo:hex`.
    pub fn to_string(&self) -> (r: String)
        ensures
            r@ == digest_text(self.algo, self.hash@),
    {
        join_with(self.algo.as_str(), ':', self.hash.as_str())
    }
}

/// Parsing then printing gives back the text that was parsed.
pub proof fn lemma_digest_parse_print(t: Seq<char>)
    requires
        parse_digest_text(t) is Some,
    ensures
        digest_text(parse_digest_text(t)->Some_0.0, parse_digest_text(t)->Some_0.1) == t,
{
    let (a, h) = parse_digest_text(t)->Some_0;
    assert(t.subrange(0, 6) == algorithm_token(a));
    assert(digest_text(a, h) =~= t);
}

/// Printing then parsing gives back the algorithm and hash that were printed.
pub proof fn lemma_digest_print_parse(a: DigestAlgorithm, h: Seq<char>)
    requires
        valid_hash(a, h),
    ensures
        parse_digest_text(digest_text(a, h)) == Some((a, h)),
{
    let t = digest_text(a, h);
    assert(t.subrange(0, 6) =~= algorithm_token(a));
    assert(t.subrange(7, t.len() as int) =~= h);
}

} // verus!
