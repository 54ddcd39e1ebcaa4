//! The country ban list: a sorted registry of two-byte country codes,
//! each with a ban flag, looked up by binary search.
//!
//! The locker engine consults it exactly once, at creation time: a
//! country is valid iff it is registered and not flagged banned.

use vstd::prelude::*;

verus! {

use vstd::slice::slice_index_get;
use vstd::string::StringSliceAdditionalSpecFns;
use vstd::utf8::encode_utf8;
use crate::accounts::AccountId;

/// Why a ban-list operation was rejected.
#[derive(Clone, Copy, Debug, PartialEq, Eq, Structural)]
pub enum ErrorCode {
    /// The country is not registered.
    UnknownCountry,
    /// The signer is not the registry's admin.
    Unauthorized,
}

/// One registry entry: a two-byte country code and its ban flag.
#[derive(Clone, Copy, Debug, PartialEq, Eq)]
pub struct CountryData {
    /// Two-byte country code.
    pub code: [u8; 2],
    /// Whether the country is currently banned.
    pub banned: bool,
}

/// The numeric key a two-byte code sorts by.
pub open spec fn code_key(code: [u8; 2]) -> int {
    code@[0] * 256 + code@[1]
}

/// The key of the first two bytes of an encoded country string.
pub open spec fn spec_str_code_key(bytes: Seq<u8>) -> int {
    bytes[0] * 256 + bytes[1]
}

/// Whether some entry of `list` has this key.
pub open spec fn list_has_key(list: Seq<CountryData>, key: int) -> bool {
    exists|i: int| 0 <= i < list.len() && code_key(list[i].code) == key
}

/// Computes the sort key of a code.
pub fn key_of(code: &[u8; 2]) -> (k: u16)
    ensures
        k == code_key(*code),
{
    (code[0] as u16) * 256 + (code[1] as u16)
}

/// Takes the first two bytes of a country string as a code.
pub fn string_to_byte_array(s: &str) -> (r: [u8; 2])
    requires
        s.spec_bytes().len() >= 2,
    ensures
        r@[0] == s.spec_bytes()[0],
        r@[1] == s.spec_bytes()[1],
        code_key(r) == spec_str_code_key(s.spec_bytes()),
{
    let bytes = s.as_bytes();
    let b0 = *slice_index_get(bytes, 0);
    let b1 = *slice_index_get(bytes, 1);
    [b0, b1]
}

/// The sorted registry of countries, owned by its admin.
#[derive(Clone, Debug, PartialEq, Eq)]
pub struct CountryBanList {
    /// The entries, sorted strictly by code key.
    pub countries: Vec<CountryData>,
    /// The only identity allowed to flip ban flags.
    pub admin: AccountId,
}

impl CountryBanList {
    /// The registry invariant: entries sorted strictly by key, so codes
    /// are unique and binary search applies.
    pub open spec fn wf(&self) -> bool {
        forall|i: int, j: int|
            0 <= i < j < self.countries@.len() ==> code_key(self.countries@[i].code) < code_key(
                self.countries@[j].code,
            )
    }

    /// Whether a code with this key is registered.
    pub open spec fn spec_has_key(&self, key: int) -> bool {
        list_has_key(self.countries@, key)
    }

    /// Whether a code with this key is registered and not banned.
    pub open spec fn spec_valid_key(&self, key: int) -> bool {
        exists|i: int|
            0 <= i < self.countries@.len() && code_key(self.countries@[i].code) == key
                && !self.countries@[i].banned
    }

    /// In a sorted registry every key names at most one entry.
    proof fn lemma_key_unique(&self, i: int, j: int)
        requires
            self.wf(),
            0 <= i < self.countries@.len(),
            0 <= j < self.countries@.len(),
            code_key(self.countries@[i].code) == code_key(self.countries@[j].code),
        ensures
            i == j,
    {
    }

    /// True iff the country is registered and not flagged banned.
    pub fn is_country_valid(&self, country: &str) -> (r: bool)
        requires
            self.wf(),
            country.spec_bytes().len() >= 2,
        ensures
            r == self.spec_valid_key(spec_str_code_key(country.spec_bytes())),
    {
        let code = string_to_byte_array(country);
        let target = key_of(&code);
        let mut i: usize = 0;
        while i < self.countries.len()
            invariant
                self.wf(),
                target == spec_str_code_key(country.spec_bytes()),
                i <= self.countries@.len(),
                forall|j: int| 0 <= j < i ==> code_key(self.countries@[j].code) != target,
            decreases self.countries@.len() - i,
        {
            let entry = &self.countries[i];
            if key_of(&entry.code) == target {
                proof {
                    if self.spec_valid_key(target as int) {
                        let w = choose|w: int|
                            0 <= w < self.countries@.len() && code_key(self.countries@[w].code)
                                == target && !self.countries@[w].banned;
                        self.lemma_key_unique(w, i as int);
                    }
                }
                return !entry.banned;
            }
            i += 1;
        }
        false
    }
}

/// The accounts `initialize` runs against: the fresh registry record and
/// the admin who signs and pays for it.
#[derive(Clone, Debug, PartialEq, Eq)]
pub struct Initialize {
    /// The registry record being created.
    pub country_banlist: CountryBanList,
    /// The signing admin; recorded as the registry's owner.
    pub admin: AccountId,
}

/// The accounts `flip_ban` runs against.
#[derive(Clone, Debug, PartialEq, Eq)]
pub struct FlipBan {
    /// The registry record being mutated.
    pub country_banlist: CountryBanList,
    /// The signer; must equal the registry's admin.
    pub admin: AccountId,
}

/// Whether some code in `codes` has this key.
pub open spec fn spec_input_has_key(codes: Seq<[u8; 2]>, key: int) -> bool {
    exists|i: int| 0 <= i < codes.len() && code_key(codes[i]) == key
}

/// Appending one code to the input extends its key set by exactly that
/// code's key.
proof fn lemma_input_has_key_push(codes: Seq<[u8; 2]>, c: [u8; 2], k: int)
    ensures
        spec_input_has_key(codes.push(c), k) <==> (spec_input_has_key(codes, k) || k == code_key(
            c,
        )),
{
    if spec_input_has_key(codes.push(c), k) {
        let i = choose|i: int| 0 <= i < codes.push(c).len() && code_key(codes.push(c)[i]) == k;
        if i < codes.len() {
            assert(codes.push(c)[i] == codes[i]);
        } else {
            assert(codes.push(c)[i] == c);
        }
    }
    if spec_input_has_key(codes, k) {
        let i = choose|i: int| 0 <= i < codes.len() && code_key(codes[i]) == k;
        assert(codes.push(c)[i] == codes[i]);
    }
    assert(codes.push(c)[codes.len() as int] == c);
}

/// Inserts a code at its sorted position, unbanned; a code already
/// registered is left as it is.
fn sorted_insert(list: &mut Vec<CountryData>, code: [u8; 2])
    requires
        forall|i: int, j: int|
            0 <= i < j < old(list)@.len() ==> code_key(old(list)@[i].code) < code_key(
                old(list)@[j].code,
            ),
    ensures
        forall|i: int, j: int|
            0 <= i < j < final(list)@.len() ==> code_key(final(list)@[i].code) < code_key(
                final(list)@[j].code,
            ),
        forall|k: int|
            #[trigger] list_has_key(final(list)@, k) <==> (list_has_key(old(list)@, k) || k
                == code_key(code)),
        forall|i: int|
            0 <= i < final(list)@.len() ==> (old(list)@.contains(final(list)@[i])
                || final(list)@[i] == (CountryData { code, banned: false })),
{
    let k = key_of(&code);
    let mut pos: usize = 0;
    loop
        invariant
            k == code_key(code),
            pos <= list@.len(),
            *list == *old(list),
            forall|i: int, j: int|
                0 <= i < j < list@.len() ==> code_key(list@[i].code) < code_key(list@[j].code),
            forall|j: int| 0 <= j < pos ==> code_key(list@[j].code) < k,
        ensures
            pos <= list@.len(),
            *list == *old(list),
            forall|j: int| 0 <= j < pos ==> code_key(list@[j].code) < k,
            pos < list@.len() ==> code_key(list@[pos as int].code) >= k,
        decreases list@.len() - pos,
    {
        if pos >= list.len() {
            break ;
        }
        let entry = &list[pos];
        if key_of(&entry.code) >= k {
            break ;
        }
        pos += 1;
    }
    if pos < list.len() {
        let entry = &list[pos];
        if key_of(&entry.code) == k {
            // already registered: keep the existing entry and its flag
            return ;
        }
    }
    let entry = CountryData { code, banned: false };
    proof {
        old(list)@.insert_ensures(pos as int, entry);
    }
    list.insert(pos, entry);
    proof {
        let o = old(list)@;
        let n = list@;
        assert forall|i: int, j: int| 0 <= i < j < n.len() implies code_key(n[i].code) < code_key(
            n[j].code,
        ) by {
            if j < pos {
            } else if i < pos && j == pos {
            } else if i == pos {
                assert(n[j] == o[j - 1]);
            } else if i < pos {
                assert(n[i] == o[i]);
                assert(n[j] == o[j - 1]);
                if j - 1 == i {
                    assert(code_key(o[i].code) < k);
                    assert(code_key(n[j].code) >= k);
                }
            } else {
                assert(n[i] == o[i - 1]);
                assert(n[j] == o[j - 1]);
            }
        }
        assert forall|i: int|
            0 <= i < n.len() implies (o.contains(n[i]) || n[i] == (CountryData {
            code,
            banned: false,
        })) by {
            if i < pos {
                assert(n[i] == o[i]);
                assert(o.contains(n[i]));
            } else if i > pos {
                assert(n[i] == o[i - 1]);
                assert(o.contains(n[i]));
            }
        }
        assert forall|k2: int| #[trigger]
            list_has_key(n, k2) implies (list_has_key(o, k2) || k2 == code_key(code)) by {
            let i = choose|i: int| 0 <= i < n.len() && code_key(n[i].code) == k2;
            if i < pos {
                assert(n[i] == o[i]);
            } else if i > pos {
                assert(n[i] == o[i - 1]);
            }
        }
        assert forall|k2: int|
            (list_has_key(o, k2) || k2 == code_key(code)) implies #[trigger] list_has_key(
            n, k2) by {
            if list_has_key(o, k2) {
                let i = choose|i: int| 0 <= i < o.len() && code_key(o[i].code) == k2;
                if i < pos {
                    assert(n[i] == o[i]);
                } else {
                    assert(n[i + 1] == o[i]);
                }
            } else {
                assert(n[pos as int] == entry);
            }
        }
    }
}

/// Builds the registry from the given codes: sorted, without duplicates,
/// every country initially unbanned, owned by the signing admin.
pub fn initialize(accs: &mut Initialize, countries: Vec<[u8; 2]>) -> (r: Result<(), ErrorCode>)
    ensures
        r is Ok,
        final(accs).country_banlist.wf(),
        final(accs).country_banlist.admin == old(accs).admin,
        final(accs).admin == old(accs).admin,
        forall|k: int|
            final(accs).country_banlist.spec_has_key(k) <==> spec_input_has_key(countries@, k),
        forall|i: int|
            0 <= i < final(accs).country_banlist.countries@.len()
                ==> !final(accs).country_banlist.countries@[i].banned,
{
    let mut list: Vec<CountryData> = Vec::new();
    let mut idx: usize = 0;
    while idx < countries.len()
        invariant
            idx <= countries@.len(),
            forall|i: int, j: int|
                0 <= i < j < list@.len() ==> code_key(list@[i].code) < code_key(list@[j].code),
            forall|k: int|
                #[trigger] list_has_key(list@, k) <==> spec_input_has_key(
                    countries@.take(idx as int),
                    k,
                ),
            forall|i: int| 0 <= i < list@.len() ==> !list@[i].banned,
        decreases countries@.len() - idx,
    {
        let code = countries[idx];
        let ghost pre = list@;
        sorted_insert(&mut list, code);
        idx += 1;
        proof {
            assert(countries@.take(idx as int) =~= countries@.take(idx - 1).push(code));
            assert forall|k: int|
                #[trigger] list_has_key(list@, k) <==> spec_input_has_key(
                countries@.take(idx as int), k) by {
                lemma_input_has_key_push(countries@.take(idx - 1), code, k);
            }
            assert forall|i: int| 0 <= i < list@.len() implies !list@[i].banned by {
                if pre.contains(list@[i]) {
                    let w = choose|j: int| 0 <= j < pre.len() && pre[j] == list@[i];
                }
            }
        }
    }
    proof {
        assert(countries@.take(countries@.len() as int) == countries@);
    }
    accs.country_banlist.countries = list;
    accs.country_banlist.admin = accs.admin;
    Ok(())
}

/// Flips the ban flag of a registered country to `value`.  Only the
/// registry's admin may do so; an unregistered country is reported as
/// unknown, with the registry unchanged.
pub fn flip_ban(accs: &mut FlipBan, country: String, value: bool) -> (r: Result<(), ErrorCode>)
    requires
        old(accs).country_banlist.wf(),
        encode_utf8(country@).len() >= 2,
    ensures
        final(accs).admin == old(accs).admin,
        final(accs).country_banlist.admin == old(accs).country_banlist.admin,
        final(accs).country_banlist.wf(),
        r == Err::<(), ErrorCode>(ErrorCode::Unauthorized) <==> old(accs).admin != old(
            accs,
        ).country_banlist.admin,
        old(accs).admin == old(accs).country_banlist.admin ==> {
            let key = spec_str_code_key(encode_utf8(country@));
            &&& (r is Ok <==> old(accs).country_banlist.spec_has_key(key))
            &&& (r is Ok ==> exists|i: int|
                0 <= i < old(accs).country_banlist.countries@.len() && code_key(
                    old(accs).country_banlist.countries@[i].code,
                ) == key && final(accs).country_banlist.countries@ == old(
                    accs,
                ).country_banlist.countries@.update(
                    i,
                    (CountryData {
                        code: old(accs).country_banlist.countries@[i].code,
                        banned: value,
                    }),
                ))
        },
        r is Err ==> *final(accs) == *old(accs),
{
    if accs.admin != accs.country_banlist.admin {
        return Err(ErrorCode::Unauthorized);
    }
    let code = string_to_byte_array(country.as_str());
    let target = key_of(&code);
    // binary search over the sorted registry
    let mut lo: usize = 0;
    let mut hi: usize = accs.country_banlist.countries.len();
    while lo < hi
        invariant
            *accs == *old(accs),
            old(accs).admin == old(accs).country_banlist.admin,
            accs.country_banlist.wf(),
            target == spec_str_code_key(encode_utf8(country@)),
            lo <= hi <= accs.country_banlist.countries@.len(),
            forall|j: int|
                0 <= j < lo ==> code_key(accs.country_banlist.countries@[j].code) < target,
            forall|j: int|
                hi <= j < accs.country_banlist.countries@.len() ==> code_key(
                    accs.country_banlist.countries@[j].code,
                ) > target,
        decreases hi - lo,
    {
        let mid = lo + (hi - lo) / 2;
        let k = key_of(&accs.country_banlist.countries[mid].code);
        if k < target {
            lo = mid + 1;
        } else if k > target {
            hi = mid;
        } else {
            let ghost old_list = accs.country_banlist.countries@;
            accs.country_banlist.countries[mid].banned = value;
            proof {
                assert(accs.country_banlist.countries@ =~= old_list.update(
                    mid as int,
                    (CountryData { code: old_list[mid as int].code, banned: value }),
                ));
            }
            return Ok(());
        }
    }
    proof {
        if accs.country_banlist.spec_has_key(target as int) {
            let i = choose|i: int|
                0 <= i < accs.country_banlist.countries@.len() && code_key(
                    accs.country_banlist.countries@[i].code,
                ) == target;
            assert(false);
        }
    }
    Err(ErrorCode::UnknownCountry)
}

} // verus!
