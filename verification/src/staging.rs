//! Ephemeral staging of secret key material.
//!
//! A server tunnel's private secret must be materialized in a transient
//! file just long enough for the external engine to read it. Each staged
//! secret gets a unique name, `sk.<token>.dat`, built from a random
//! 128-bit hex-encoded token so that concurrently started tunnels cannot
//! collide. Every staged secret must be released again: the staged
//! content is unencrypted private key material.

use vstd::prelude::*;

use rand::Rng;

use crate::base64;
use crate::base64::{spec_decode, valid_b64};
use crate::error::StageError;
use crate::text::copy_string;

verus! {

/// The lowercase hex digit character for a value below sixteen.
pub open spec fn hex_digit(v: int) -> char
    recommends
        0 <= v < 16,
{
    if v < 10 {
        (48 + v) as char
    } else {
        (87 + v) as char
    }
}

/// The lowercase hex text of a byte sequence: two digits per byte,
/// high nibble first.
pub open spec fn spec_hex(s: Seq<u8>) -> Seq<char> {
    Seq::new(
        s.len() * 2,
        |i: int|
            if i % 2 == 0 {
                hex_digit(s[i / 2] as int / 16)
            } else {
                hex_digit(s[i / 2] as int % 16)
            },
    )
}

/// Hex digits are distinct.
proof fn lemma_hex_digit_injective(x: int, y: int)
    requires
        0 <= x < 16,
        0 <= y < 16,
        hex_digit(x) == hex_digit(y),
    ensures
        x == y,
{
}

/// Hex encoding is injective on equal-length byte sequences: two
/// staged names can only collide if the random 128-bit values behind
/// their tokens collide.
pub proof fn lemma_hex_injective(a: Seq<u8>, b: Seq<u8>)
    requires
        a.len() == b.len(),
        spec_hex(a) == spec_hex(b),
    ensures
        a == b,
{
    assert forall|i: int| 0 <= i < a.len() implies a[i] == b[i] by {
        assert(spec_hex(a)[2 * i] == hex_digit(a[i] as int / 16));
        assert(spec_hex(b)[2 * i] == hex_digit(b[i] as int / 16));
        assert(spec_hex(a)[2 * i + 1] == hex_digit(a[i] as int % 16));
        assert(spec_hex(b)[2 * i + 1] == hex_digit(b[i] as int % 16));
        lemma_hex_digit_injective(a[i] as int / 16, b[i] as int / 16);
        lemma_hex_digit_injective(a[i] as int % 16, b[i] as int % 16);
    }
    assert(a =~= b);
}

/// `c` is a lowercase hex digit.
pub open spec fn is_hex_char(c: char) -> bool {
    (48 <= c as int && c as int <= 57) || (97 <= c as int && c as int <= 102)
}

/// A staging token: 32 lowercase hex digits, 128 bits of entropy.
pub open spec fn is_token(t: Seq<char>) -> bool {
    t.len() == 32 && (forall|i: int| 0 <= i < 32 ==> is_hex_char(#[trigger] t[i]))
}

/// The staged file name formed from a token.
pub open spec fn spec_staged_name(token: Seq<char>) -> Seq<char> {
    "sk."@ + token + ".dat"@
}

/// Distinct tokens of equal length give distinct staged names, so
/// concurrent stagings can only collide if their random tokens collide.
pub proof fn lemma_staged_name_injective(t1: Seq<char>, t2: Seq<char>)
    requires
        t1.len() == t2.len(),
        spec_staged_name(t1) == spec_staged_name(t2),
    ensures
        t1 == t2,
{
    reveal_strlit("sk.");
    reveal_strlit(".dat");
    assert forall|i: int| 0 <= i < t1.len() implies t1[i] == t2[i] by {
        assert(spec_staged_name(t1)[3 + i] == t1[i]);
        assert(spec_staged_name(t2)[3 + i] == t2[i]);
    }
    assert(t1 =~= t2);
}

/// Relies on `rand::rng` and `Rng::fill_bytes`: sixteen bytes from the
/// thread-local cryptographic generator. Nothing is assumed of their
/// values; every outcome yields a well-formed token downstream.
#[verifier::external_body]
fn random_bytes_16() -> (r: Vec<u8>)
    ensures
        r@.len() == 16,
{
    let mut data = [0u8; 16];
    rand::rng().fill_bytes(&mut data);
    data.to_vec()
}

/// Relies on `hex::encode`: two lowercase hex digits per byte, high
/// nibble first.
#[verifier::external_body]
fn hex_encode(bytes: &[u8]) -> (r: String)
    ensures
        r@ == spec_hex(bytes@),
{
    hex::encode(bytes)
}

/// Draws a fresh staging token: 128 random bits, hex-encoded.
pub fn make_token() -> (t: String)
    ensures
        is_token(t@),
{
    let b = random_bytes_16();
    let t = hex_encode(b.as_slice());
    proof {
        assert forall|i: int| 0 <= i < 32 implies is_hex_char(#[trigger] t@[i]) by {
            if i % 2 == 0 {
                assert(t@[i] == hex_digit(b@[i / 2] as int / 16));
            } else {
                assert(t@[i] == hex_digit(b@[i / 2] as int % 16));
            }
        }
    }
    t
}

/// Builds the staged file name `sk.<token>.dat`.
pub fn staged_name(token: &str) -> (r: String)
    ensures
        r@ == spec_staged_name(token@),
{
    let mut s = String::from_str("sk.");
    s.append(token);
    s.append(".dat");
    proof {
        assert(s@ =~= spec_staged_name(token@));
    }
    s
}

/// Secret bytes prepared for a transient staging location, tied to the
/// token-derived file name the external engine will be pointed at.
pub struct StagedSecret {
    /// The staged file name, `sk.<token>.dat`.
    pub name: String,
    /// The raw secret bytes, fully decoded before anything is written.
    pub bytes: Vec<u8>,
}

/// The staged name and content of each secret currently materialized.
///
/// This models the transient store: names map to fully decoded secret
/// bytes, and releasing a name removes every trace of it.
pub struct StagingArea {
    /// The staged entries, in staging order.
    pub files: Vec<StagedSecret>,
}

impl StagingArea {
    /// Some staged entry bears this name.
    pub open spec fn has_name(&self, n: Seq<char>) -> bool {
        exists|j: int| 0 <= j < self.files@.len() && #[trigger] self.files@[j].name@ == n
    }

    /// `n` is staged with content `b`.
    pub open spec fn stores(&self, n: Seq<char>, b: Seq<u8>) -> bool {
        exists|j: int|
            0 <= j < self.files@.len() && #[trigger] self.files@[j].name@ == n
                && self.files@[j].bytes@ == b
    }

    /// An empty staging area.
    pub fn new() -> (a: StagingArea)
        ensures
            a.files@.len() == 0,
            forall|n: Seq<char>| !a.has_name(n),
    {
        StagingArea { files: Vec::new() }
    }

    /// How many secrets are currently staged.
    pub fn len(&self) -> (r: usize)
        ensures
            r == self.files@.len(),
    {
        self.files.len()
    }

    /// Stages a secret: draws a fresh random token, decodes the base64
    /// secret text to raw bytes, and records the bytes under the name
    /// `sk.<token>.dat`. Fails with `DecodeFailed` exactly when the text
    /// is not valid base64, and then stages nothing.
    pub fn stage(&mut self, secret_b64: &str) -> (r: Result<String, StageError>)
        ensures
            match r {
                Ok(name) => {
                    &&& valid_b64(secret_b64@)
                    &&& exists|t: Seq<char>| is_token(t) && name@ == spec_staged_name(t)
                    &&& final(self).files@.len() == old(self).files@.len() + 1
                    &&& final(self).files@.take(old(self).files@.len() as int) == old(
                        self,
                    ).files@
                    &&& final(self).files@.last().name@ == name@
                    &&& final(self).files@.last().bytes@ == spec_decode(secret_b64@)->Some_0
                    &&& final(self).has_name(name@)
                },
                Err(e) => {
                    &&& e is DecodeFailed
                    &&& !valid_b64(secret_b64@)
                    &&& *final(self) == *old(self)
                },
            },
    {
        let bytes = match base64::decode(secret_b64) {
            Ok(b) => b,
            Err(e) => {
                return Err(e);
            },
        };
        let token = make_token();
        let name = staged_name(token.as_str());
        let stored = copy_string(&name);
        self.files.push(StagedSecret { name: stored, bytes });
        proof {
            assert(self.files@.take(old(self).files@.len() as int) =~= old(self).files@);
            assert(self.files@[self.files@.len() - 1].name@ == name@);
        }
        Ok(name)
    }

    /// The staged content under a name, if any: what the external
    /// engine would read back from the staged location.
    pub fn read_back(&self, name: &String) -> (r: Option<Vec<u8>>)
        ensures
            match r {
                Some(b) => self.has_name(name@) && self.stores(name@, b@),
                None => !self.has_name(name@),
            },
    {
        let mut j: usize = 0;
        while j < self.files.len()
            invariant
                j <= self.files@.len(),
                forall|k: int| 0 <= k < j ==> self.files@[k].name@ != name@,
            decreases self.files@.len() - j,
        {
            if self.files[j].name.eq(name) {
                let b = copy_bytes(&self.files[j].bytes);
                return Some(b);
            }
            j = j + 1;
        }
        None
    }

    /// Round trip through the staging area: once a secret has been
    /// staged under a name not staged before, any read of that name
    /// yields exactly the secret's decoded bytes — decode, write, read
    /// gives back the pre-write bytes. `before` and `after` are the
    /// area around the staging step, related as `stage` ensures; `b`
    /// is what a read of `name` returns, as `read_back` ensures.
    pub proof fn lemma_stage_read_back(
        before: StagingArea,
        after: StagingArea,
        name: Seq<char>,
        secret: Seq<char>,
        b: Seq<u8>,
    )
        requires
            !before.has_name(name),
            after.files@.len() == before.files@.len() + 1,
            after.files@.take(before.files@.len() as int) == before.files@,
            after.files@.last().name@ == name,
            after.files@.last().bytes@ == spec_decode(secret)->Some_0,
            after.stores(name, b),
        ensures
            b == spec_decode(secret)->Some_0,
    {
        let j = choose|j: int|
            0 <= j < after.files@.len() && after.files@[j].name@ == name && after.files@[j].bytes@
                == b;
        if j < before.files@.len() {
            assert(after.files@.take(before.files@.len() as int)[j] == after.files@[j]);
            assert(before.files@[j].name@ == name);
        } else {
            assert(after.files@[j] == after.files@.last());
        }
    }

    /// Releases a staged name: removes every entry under it, keeping
    /// all others in order. Afterwards the name no longer exists in the
    /// staging area.
    #[verifier::loop_isolation(false)]
    pub fn release(&mut self, name: &String)
        ensures
            final(self).files@ == old(self).files@.filter(
                |f: StagedSecret| f.name@ != name@,
            ),
            !final(self).has_name(name@),
            forall|n2: Seq<char>|
                n2 != name@ ==> (final(self).has_name(n2) <==> old(self).has_name(n2)),
    {
        let ghost pred = |f: StagedSecret| f.name@ != name@;
        let mut j: usize = 0;
        let ghost mut m: int = 0;
        proof {
            reveal(Seq::filter);
            assert(old(self).files@.take(0).filter(pred) =~= Seq::<StagedSecret>::empty());
            assert(self.files@ =~= old(self).files@.take(0).filter(pred) + old(
                self,
            ).files@.skip(0));
        }
        while j < self.files.len()
            invariant
                j <= self.files@.len(),
                0 <= m <= old(self).files@.len(),
                j as int == old(self).files@.take(m).filter(pred).len(),
                self.files@ == old(self).files@.take(m).filter(pred) + old(
                    self,
                ).files@.skip(m),
                self.files@.len() - j == old(self).files@.len() - m,
            decreases old(self).files@.len() - m,
        {
            proof {
                assert(self.files@[j as int] == old(self).files@.skip(m)[0]);
                assert(old(self).files@.skip(m)[0] == old(self).files@[m]);
            }
            let is_hit = self.files[j].name.eq(name);
            if is_hit {
                self.files.remove(j);
                proof {
                    m = m + 1;
                    assert(!pred(old(self).files@[m - 1]));
                    assert(old(self).files@.take(m) =~= old(self).files@.take(m - 1).push(
                        old(self).files@[m - 1],
                    ));
                    old(self).files@.take(m - 1).lemma_filter_push(
                        old(self).files@[m - 1],
                        pred,
                    );
                    assert(old(self).files@.take(m).filter(pred) =~= old(self).files@.take(m
                        - 1).filter(pred));
                    assert(self.files@ =~= old(self).files@.take(m).filter(pred) + old(
                        self,
                    ).files@.skip(m));
                }
            } else {
                j = j + 1;
                proof {
                    m = m + 1;
                    assert(old(self).files@.take(m) =~= old(self).files@.take(m - 1).push(
                        old(self).files@[m - 1],
                    ));
                    old(self).files@.take(m - 1).lemma_filter_push(
                        old(self).files@[m - 1],
                        pred,
                    );
                    assert(old(self).files@.take(m).filter(pred) =~= old(self).files@.take(m
                        - 1).filter(pred).push(old(self).files@[m - 1]));
                    assert(self.files@ =~= old(self).files@.take(m).filter(pred) + old(
                        self,
                    ).files@.skip(m));
                }
            }
        }
        proof {
            assert(m == old(self).files@.len());
            assert(old(self).files@.take(m) =~= old(self).files@);
            assert(self.files@ =~= old(self).files@.filter(pred));
            let fin = self.files@;
            broadcast use vstd::seq_lib::group_filter_ensures;

            lemma_filter_entries_from(old(self).files@, pred);
            assert forall|j2: int| 0 <= j2 < fin.len() implies fin[j2].name@ != name@ by {
                assert(pred(fin[j2]));
            }
            assert forall|n2: Seq<char>|
                n2 != name@ && old(self).has_name(n2) implies self.has_name(n2) by {
                let w = choose|w: int|
                    0 <= w < old(self).files@.len() && old(self).files@[w].name@ == n2;
                assert(pred(old(self).files@[w]));
                assert(fin.contains(old(self).files@[w]));
                let k = choose|k: int| 0 <= k < fin.len() && fin[k] == old(self).files@[w];
                assert(fin[k].name@ == n2);
            }
            assert forall|n2: Seq<char>|
                n2 != name@ && self.has_name(n2) implies old(self).has_name(n2) by {
                let k = choose|k: int| 0 <= k < fin.len() && fin[k].name@ == n2;
                assert(old(self).files@.contains(fin[k]));
                let w = choose|w: int|
                    0 <= w < old(self).files@.len() && old(self).files@[w] == fin[k];
            }
        }
    }
}

/// Every element of a filtered sequence is an element of the original.
proof fn lemma_filter_entries_from(s: Seq<StagedSecret>, pred: spec_fn(StagedSecret) -> bool)
    ensures
        forall|i: int|
            0 <= i < s.filter(pred).len() ==> s.contains(#[trigger] s.filter(pred)[i]),
    decreases s.len(),
{
    reveal(Seq::filter);
    if s.len() > 0 {
        lemma_filter_entries_from(s.drop_last(), pred);
        assert forall|i: int|
            0 <= i < s.filter(pred).len() implies s.contains(#[trigger] s.filter(pred)[i]) by {
            if i < s.drop_last().filter(pred).len() {
                assert(s.drop_last().contains(s.drop_last().filter(pred)[i]));
                let w = choose|w: int|
                    0 <= w < s.drop_last().len() && s.drop_last()[w] == s.drop_last().filter(
                        pred,
                    )[i];
                assert(s[w] == s.filter(pred)[i]);
            } else {
                assert(s.filter(pred)[i] == s.last());
                assert(s[s.len() - 1] == s.last());
            }
        }
    }
}

/// Copies a byte vector.
fn copy_bytes(v: &Vec<u8>) -> (r: Vec<u8>)
    ensures
        r@ == v@,
{
    let mut r: Vec<u8> = Vec::new();
    let mut j: usize = 0;
    while j < v.len()
        invariant
            j <= v@.len(),
            r@ == v@.take(j as int),
        decreases v@.len() - j,
    {
        r.push(v[j]);
        j = j + 1;
        proof {
            assert(r@ =~= v@.take(j as int));
        }
    }
    proof {
        assert(v@.take(v@.len() as int) =~= v@);
    }
    r
}

} // verus!
