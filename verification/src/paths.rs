//! The file registry of a raw acquisition directory.
//!
//! A run directory holds one data file per acquisition function, named
//! `_func<number>.dat`, and one per chromatogram channel, named
//! `_chro<number>.dat`, in either letter case.  A function has ion-mobility
//! structure only when a companion `.cdt` artifact sits beside its data file.
//! The registry is built from a plain directory listing: pairs of entry name
//! and whether the entry is a directory.

use vstd::prelude::*;

use crate::text::digits_value;
use crate::text::is_digit_char;
use crate::text::lower_char;
use crate::text::parse_digits;
use crate::text::spec_all_digits;
use crate::text::to_lower_char;

verus! {

/// The name with every ASCII letter lowered.
pub open spec fn lower_seq(s: Seq<char>) -> Seq<char> {
    s.map_values(|c: char| lower_char(c))
}

/// The lowered name matches `<prefix><digits>.dat` with at least one digit.
pub open spec fn spec_dat_match(l: Seq<char>, prefix: Seq<char>) -> bool {
    &&& l.len() >= prefix.len() + 5
    &&& l.take(prefix.len() as int) == prefix
    &&& l.skip(l.len() - 4) == seq!['.', 'd', 'a', 't']
    &&& spec_all_digits(l.subrange(prefix.len() as int, l.len() - 4))
}

/// The number embedded in a matching name.
pub open spec fn spec_dat_number(l: Seq<char>, prefix: Seq<char>) -> nat {
    digits_value(l.subrange(prefix.len() as int, l.len() - 4))
}

/// The 0-based function ordinal a matching name denotes: the embedded
/// number less one, saturating at zero.
pub open spec fn spec_dat_ordinal(l: Seq<char>, prefix: Seq<char>) -> nat {
    if spec_dat_number(l, prefix) == 0 {
        0
    } else {
        (spec_dat_number(l, prefix) - 1) as nat
    }
}

/// An association list after writing `value` under `key`: the first entry
/// with the key is replaced, or a new entry is appended.
pub open spec fn spec_put(s: Seq<(usize, Seq<char>)>, key: usize, value: Seq<char>) -> Seq<(usize, Seq<char>)>
    decreases s.len(),
{
    if s.len() == 0 {
        seq![(key, value)]
    } else if s[0].0 == key {
        seq![(key, value)] + s.skip(1)
    } else {
        seq![s[0]] + spec_put(s.skip(1), key, value)
    }
}

/// The registry built from a directory listing for one name prefix, in
/// listing order, later duplicates replacing earlier ones.
pub open spec fn spec_collect(entries: Seq<(Seq<char>, bool)>, prefix: Seq<char>) -> Seq<(usize, Seq<char>)>
    decreases entries.len(),
{
    if entries.len() == 0 {
        Seq::empty()
    } else {
        let prev = spec_collect(entries.drop_last(), prefix);
        let e = entries.last();
        if !e.1 && spec_dat_match(lower_seq(e.0), prefix)
            && spec_dat_number(lower_seq(e.0), prefix) <= usize::MAX {
            spec_put(prev, spec_dat_ordinal(lower_seq(e.0), prefix) as usize, e.0)
        } else {
            prev
        }
    }
}

/// The listing holds an entry whose lowered name is the data file's name
/// with its last four characters replaced by `.cdt`.
pub open spec fn spec_has_companion(entries: Seq<(Seq<char>, bool)>, data_name: Seq<char>) -> bool {
    data_name.len() >= 4 && exists|j: int| 0 <= j < entries.len()
        && lower_seq((#[trigger] entries[j]).0)
            == lower_seq(data_name).take(data_name.len() - 4) + seq!['.', 'c', 'd', 't']
}

/// The function ordinals, in registry order, whose data file has a
/// companion ion-mobility artifact in the listing.
pub open spec fn spec_cdt_functions(
    function_paths: Seq<(usize, Seq<char>)>,
    entries: Seq<(Seq<char>, bool)>,
) -> Seq<usize>
    decreases function_paths.len(),
{
    if function_paths.len() == 0 {
        Seq::empty()
    } else {
        let rest = spec_cdt_functions(function_paths.drop_last(), entries);
        let e = function_paths.last();
        if spec_has_companion(entries, e.1) {
            rest.push(e.0)
        } else {
            rest
        }
    }
}

/// The abstract contents of a listing: entry names as character sequences,
/// paired with their directory flags.
pub open spec fn listing_view(entries: &Vec<(String, bool)>) -> Seq<(Seq<char>, bool)> {
    entries@.map_values(|e: (String, bool)| (e.0@, e.1))
}

/// The abstract contents of a path registry column.
pub open spec fn registry_view(v: &Vec<(usize, String)>) -> Seq<(usize, Seq<char>)> {
    v@.map_values(|e: (usize, String)| (e.0, e.1@))
}

/// Where each acquisition function's and chromatogram channel's data file
/// sits inside a run directory, and which functions have ion-mobility
/// artifacts.
#[derive(Debug, Default, Clone)]
pub struct RawPaths {
    pub base_path: String,
    pub function_paths: Vec<(usize, String)>,
    pub chromatogram_paths: Vec<(usize, String)>,
    pub cdt_functions: Vec<usize>,
}

impl RawPaths {
    /// Builds the registry from the run directory's listing.
    pub fn from_listing(base_path: String, entries: &Vec<(String, bool)>) -> (r: Self)
        ensures
            r.base_path == base_path,
            registry_view(&r.function_paths)
                == spec_collect(listing_view(entries), seq!['_', 'f', 'u', 'n', 'c']),
            registry_view(&r.chromatogram_paths)
                == spec_collect(listing_view(entries), seq!['_', 'c', 'h', 'r', 'o']),
            r.cdt_functions@ == spec_cdt_functions(registry_view(&r.function_paths), listing_view(entries)),
    {
        let function_paths = collect_matching(entries, "_func");
        let chromatogram_paths = collect_matching(entries, "_chro");
        let cdt_functions = collect_cdt(&function_paths, entries);
        proof {
            reveal_strlit("_func");
            reveal_strlit("_chro");
            assert("_func"@ =~= seq!['_', 'f', 'u', 'n', 'c']);
            assert("_chro"@ =~= seq!['_', 'c', 'h', 'r', 'o']);
        }
        Self { base_path, function_paths, chromatogram_paths, cdt_functions }
    }

    /// Whether the function's data file has a companion ion-mobility
    /// artifact.
    pub fn function_has_cdt(&self, function: usize) -> (b: bool)
        ensures
            b == self.cdt_functions@.contains(function),
    {
        let n = self.cdt_functions.len();
        let mut i: usize = 0;
        while i < n
            invariant
                i <= n == self.cdt_functions@.len(),
                forall|j: int| 0 <= j < i ==> self.cdt_functions@[j] != function,
            decreases n - i,
        {
            if self.cdt_functions[i] == function {
                return true;
            }
            i += 1;
        }
        false
    }

    /// The base path of the run directory.
    pub fn path(&self) -> (r: &String)
        ensures
            r == &self.base_path,
    {
        &self.base_path
    }
}

/// Classifies one entry name against `<prefix><digits>.dat`, returning the
/// 0-based ordinal it denotes.
fn match_dat(name: &str, prefix: &str) -> (r: Option<usize>)
    ensures
        match r {
            Some(v) => spec_dat_match(lower_seq(name@), prefix@)
                && spec_dat_number(lower_seq(name@), prefix@) <= usize::MAX
                && v == spec_dat_ordinal(lower_seq(name@), prefix@),
            None => !spec_dat_match(lower_seq(name@), prefix@)
                || spec_dat_number(lower_seq(name@), prefix@) > usize::MAX,
        },
{
    let ghost l = lower_seq(name@);
    proof {
        assert(l.len() == name@.len());
    }
    let n = name.unicode_len();
    let m = prefix.unicode_len();
    if n < 5 || n - 5 < m {
        return None;
    }
    // the prefix, case-insensitively
    let mut i: usize = 0;
    while i < m
        invariant
            i <= m == prefix@.len(),
            m + 5 <= n == name@.len(),
            l == lower_seq(name@),
            forall|j: int| 0 <= j < i ==> l[j] == prefix@[j],
        decreases m - i,
    {
        let c = to_lower_char(name.get_char(i));
        proof {
            assert(l[i as int] == lower_char(name@[i as int]));
        }
        if c != prefix.get_char(i) {
            proof {
                assert(l.take(m as int)[i as int] == l[i as int]);
            }
            return None;
        }
        i += 1;
    }
    // the `.dat` suffix, case-insensitively
    let suffix_ok = {
        let c0 = to_lower_char(name.get_char(n - 4));
        let c1 = to_lower_char(name.get_char(n - 3));
        let c2 = to_lower_char(name.get_char(n - 2));
        let c3 = to_lower_char(name.get_char(n - 1));
        c0 == '.' && c1 == 'd' && c2 == 'a' && c3 == 't'
    };
    proof {
        assert(l[n - 4] == lower_char(name@[n - 4]));
        assert(l[n - 3] == lower_char(name@[n - 3]));
        assert(l[n - 2] == lower_char(name@[n - 2]));
        assert(l[n - 1] == lower_char(name@[n - 1]));
        assert(l.skip(n - 4).len() == 4);
        assert(l.skip(n - 4)[0] == l[n - 4]);
        assert(l.skip(n - 4)[1] == l[n - 3]);
        assert(l.skip(n - 4)[2] == l[n - 2]);
        assert(l.skip(n - 4)[3] == l[n - 1]);
    }
    if !suffix_ok {
        proof {
            if l.skip(l.len() - 4) == seq!['.', 'd', 'a', 't'] {
                assert(l.skip(n - 4)[0] == '.');
                assert(l.skip(n - 4)[1] == 'd');
                assert(l.skip(n - 4)[2] == 'a');
                assert(l.skip(n - 4)[3] == 't');
            }
        }
        return None;
    }
    proof {
        assert(l.skip(n - 4) =~= seq!['.', 'd', 'a', 't']);
    }
    // the digits
    let mut k: usize = m;
    while k < n - 4
        invariant
            m <= k <= n - 4,
            m + 5 <= n == name@.len(),
            m == prefix@.len(),
            l == lower_seq(name@),
            forall|j: int| m <= j < k ==> is_digit_char(#[trigger] l[j]),
            forall|j: int| m <= j < k ==> is_digit_char(#[trigger] name@[j]),
        decreases n - 4 - k,
    {
        let c = name.get_char(k);
        let lc = to_lower_char(c);
        proof {
            assert(l[k as int] == lower_char(name@[k as int]));
        }
        if !('0' <= lc && lc <= '9') {
            proof {
                assert(c == name@[k as int]);
                assert(l[k as int] == lc);
                assert(!is_digit_char(l[k as int]));
                assert(l.subrange(m as int, n - 4)[k - m] == l[k as int]);
                assert(!spec_all_digits(l.subrange(m as int, n - 4)));
            }
            return None;
        }
        proof {
            // an ASCII letter never lowers to a digit, so the original
            // character is the digit itself
            assert(is_digit_char(lc));
            assert(lower_char(c) == c);
            assert(is_digit_char(l[k as int]));
            assert(c == name@[k as int]);
            assert(is_digit_char(name@[k as int]));
        }
        k += 1;
    }
    proof {
        assert(spec_all_digits(l.subrange(m as int, n - 4))) by {
            assert forall|j: int| 0 <= j < l.subrange(m as int, n - 4).len()
                implies is_digit_char(#[trigger] l.subrange(m as int, n - 4)[j]) by {
                assert(l.subrange(m as int, n - 4)[j] == l[m + j]);
            }
        }
        assert(l.take(m as int) =~= prefix@);
        assert(spec_dat_match(l, prefix@));
        assert(spec_all_digits(name@.subrange(m as int, n - 4))) by {
            assert forall|j: int| 0 <= j < name@.subrange(m as int, n - 4).len()
                implies is_digit_char(#[trigger] name@.subrange(m as int, n - 4)[j]) by {
                assert(name@.subrange(m as int, n - 4)[j] == name@[m + j]);
            }
        }
        // the digit region of the lowered name is the digit region of the
        // original, character for character
        assert(l.subrange(m as int, n - 4) =~= name@.subrange(m as int, n - 4)) by {
            assert forall|j: int| 0 <= j < n - 4 - m
                implies l.subrange(m as int, n - 4)[j] == #[trigger] name@.subrange(m as int, n - 4)[j] by {
                assert(l.subrange(m as int, n - 4)[j] == l[m + j]);
                assert(name@.subrange(m as int, n - 4)[j] == name@[m + j]);
                assert(is_digit_char(name@[m + j]));
                assert(lower_char(name@[m + j]) == name@[m + j]);
            }
        }
    }
    match parse_digits(name, m, n - 4) {
        Some(v) => {
            if v == 0 {
                Some(0)
            } else {
                Some(v - 1)
            }
        }
        None => None,
    }
}

/// Collects, in listing order, the ordinals and names of the non-directory
/// entries matching the prefix.
fn collect_matching(entries: &Vec<(String, bool)>, prefix: &str) -> (r: Vec<(usize, String)>)
    ensures
        registry_view(&r) == spec_collect(listing_view(entries), prefix@),
{
    let mut out: Vec<(usize, String)> = Vec::new();
    let n = entries.len();
    let mut i: usize = 0;
    proof {
        assert(listing_view(entries).take(0) =~= Seq::<(Seq<char>, bool)>::empty());
        assert(registry_view(&out) =~= spec_collect(listing_view(entries).take(0), prefix@));
    }
    while i < n
        invariant
            i <= n == entries@.len(),
            registry_view(&out) == spec_collect(listing_view(entries).take(i as int), prefix@),
        decreases n - i,
    {
        let e = &entries[i];
        proof {
            assert(listing_view(entries).take(i + 1).drop_last()
                =~= listing_view(entries).take(i as int));
            assert(listing_view(entries).take(i + 1).last()
                == (entries@[i as int].0@, entries@[i as int].1));
        }
        if !e.1 {
            match match_dat(e.0.as_str(), prefix) {
                Some(ordinal) => {
                    put_entry(&mut out, ordinal, e.0.clone());
                }
                None => {}
            }
        }
        i += 1;
    }
    proof {
        assert(listing_view(entries).take(n as int) =~= listing_view(entries));
    }
    out
}

/// Writes `value` under `key` in the association vector, replacing the first
/// entry with the key or appending.
fn put_entry(v: &mut Vec<(usize, String)>, key: usize, value: String)
    ensures
        registry_view(final(v)) == spec_put(registry_view(old(v)), key, value@),
{
    let ghost orig = registry_view(old(v));
    let n = v.len();
    let mut i: usize = 0;
    let mut found: Option<usize> = None;
    while i < n && found.is_none()
        invariant
            i <= n == v@.len(),
            v == old(v),
            match found {
                Some(k) => k < i && i == k + 1 && v@[k as int].0 == key
                    && (forall|j: int| 0 <= j < k ==> (#[trigger] v@[j]).0 != key),
                None => forall|j: int| 0 <= j < i ==> (#[trigger] v@[j]).0 != key,
            },
        decreases n - i,
    {
        if v[i].0 == key {
            found = Some(i);
        }
        i += 1;
    }
    match found {
        Some(k) => {
            let mut rebuilt: Vec<(usize, String)> = Vec::new();
            let mut j: usize = 0;
            while j < n
                invariant
                    j <= n == v@.len(),
                    v == old(v),
                    k < n,
                    rebuilt@.len() == j,
                    forall|t: int| 0 <= t < j && t != k ==> rebuilt@[t] == #[trigger] v@[t],
                    j > k ==> rebuilt@[k as int].0 == key && rebuilt@[k as int].1@ == value@,
                decreases n - j,
            {
                if j == k {
                    rebuilt.push((key, value.clone()));
                } else {
                    let e = &v[j];
                    rebuilt.push((e.0, e.1.clone()));
                }
                j += 1;
            }
            proof {
                lemma_spec_put_found(orig, key, value@, k as int);
                assert(registry_view(&rebuilt) =~= spec_put(orig, key, value@));
            }
            *v = rebuilt;
        }
        None => {
            proof {
                lemma_spec_put_append(orig, key, value@);
            }
            v.push((key, value));
            proof {
                assert(registry_view(v) =~= orig.push((key, value@)));
            }
        }
    }
}

proof fn lemma_spec_put_found(s: Seq<(usize, Seq<char>)>, key: usize, value: Seq<char>, k: int)
    requires
        0 <= k < s.len(),
        s[k].0 == key,
        forall|j: int| 0 <= j < k ==> (#[trigger] s[j]).0 != key,
    ensures
        spec_put(s, key, value) == s.update(k, (key, value)),
    decreases k,
{
    if k == 0 {
        assert(seq![(key, value)] + s.skip(1) =~= s.update(0, (key, value)));
    } else {
        assert(s.skip(1)[k - 1].0 == key);
        assert forall|j: int| 0 <= j < k - 1 implies (#[trigger] s.skip(1)[j]).0 != key by {
            assert(s.skip(1)[j] == s[j + 1]);
        }
        lemma_spec_put_found(s.skip(1), key, value, k - 1);
        assert(seq![s[0]] + s.skip(1).update(k - 1, (key, value)) =~= s.update(k, (key, value)));
    }
}

proof fn lemma_spec_put_append(s: Seq<(usize, Seq<char>)>, key: usize, value: Seq<char>)
    requires
        forall|j: int| 0 <= j < s.len() ==> (#[trigger] s[j]).0 != key,
    ensures
        spec_put(s, key, value) == s.push((key, value)),
    decreases s.len(),
{
    if s.len() == 0 {
        assert(spec_put(s, key, value) =~= s.push((key, value)));
    } else {
        assert forall|j: int| 0 <= j < s.skip(1).len() implies (#[trigger] s.skip(1)[j]).0 != key by {
            assert(s.skip(1)[j] == s[j + 1]);
        }
        lemma_spec_put_append(s.skip(1), key, value);
        assert(seq![s[0]] + s.skip(1).push((key, value)) =~= s.push((key, value)));
    }
}

/// Whether the listing holds the companion `.cdt` artifact of a data file.
fn has_companion(entries: &Vec<(String, bool)>, data_name: &str) -> (b: bool)
    requires
        data_name@.len() >= 4,
    ensures
        b == spec_has_companion(listing_view(entries), data_name@),
{
    let ghost target = lower_seq(data_name@).take(data_name@.len() - 4) + seq!['.', 'c', 'd', 't'];
    let dn = data_name.unicode_len();
    let n = entries.len();
    let mut i: usize = 0;
    while i < n
        invariant
            i <= n == entries@.len(),
            4 <= dn == data_name@.len(),
            target == lower_seq(data_name@).take(data_name@.len() - 4) + seq!['.', 'c', 'd', 't'],
            forall|j: int| 0 <= j < i
                ==> lower_seq((#[trigger] listing_view(entries)[j]).0) != target,
        decreases n - i,
    {
        let nm = &entries[i].0;
        if lowered_matches_companion(nm.as_str(), data_name, dn) {
            proof {
                assert(listing_view(entries)[i as int].0 == entries@[i as int].0@);
            }
            return true;
        }
        i += 1;
    }
    false
}

/// Whether `name`, lowered, equals the first `dn - 4` lowered characters of
/// `data_name` followed by `.cdt`.
fn lowered_matches_companion(name: &str, data_name: &str, dn: usize) -> (b: bool)
    requires
        dn == data_name@.len() >= 4,
    ensures
        b == (lower_seq(name@)
            == lower_seq(data_name@).take(data_name@.len() - 4) + seq!['.', 'c', 'd', 't']),
{
    let ghost target = lower_seq(data_name@).take(data_name@.len() - 4) + seq!['.', 'c', 'd', 't'];
    let ghost l = lower_seq(name@);
    proof {
        assert(l.len() == name@.len());
        assert(target.len() == dn);
    }
    let n = name.unicode_len();
    if n != dn {
        return false;
    }
    let mut i: usize = 0;
    while i < n - 4
        invariant
            i <= n - 4,
            4 <= n == name@.len() == dn == data_name@.len(),
            l == lower_seq(name@),
            target == lower_seq(data_name@).take(data_name@.len() - 4) + seq!['.', 'c', 'd', 't'],
            forall|j: int| 0 <= j < i ==> l[j] == target[j],
        decreases n - 4 - i,
    {
        let a = to_lower_char(name.get_char(i));
        let b = to_lower_char(data_name.get_char(i));
        proof {
            assert(l[i as int] == lower_char(name@[i as int]));
            assert(target[i as int] == lower_seq(data_name@).take(data_name@.len() - 4)[i as int]);
            assert(lower_seq(data_name@).take(data_name@.len() - 4)[i as int]
                == lower_char(data_name@[i as int]));
        }
        if a != b {
            return false;
        }
        i += 1;
    }
    let c0 = to_lower_char(name.get_char(n - 4));
    let c1 = to_lower_char(name.get_char(n - 3));
    let c2 = to_lower_char(name.get_char(n - 2));
    let c3 = to_lower_char(name.get_char(n - 1));
    proof {
        assert(l[n - 4] == lower_char(name@[n - 4]));
        assert(l[n - 3] == lower_char(name@[n - 3]));
        assert(l[n - 2] == lower_char(name@[n - 2]));
        assert(l[n - 1] == lower_char(name@[n - 1]));
        assert(target[n - 4] == '.');
        assert(target[n - 3] == 'c');
        assert(target[n - 2] == 'd');
        assert(target[n - 1] == 't');
    }
    let r = c0 == '.' && c1 == 'c' && c2 == 'd' && c3 == 't';
    proof {
        if r {
            assert(l =~= target);
        }
    }
    r
}

/// Collects the function ordinals whose data file has a companion artifact.
fn collect_cdt(function_paths: &Vec<(usize, String)>, entries: &Vec<(String, bool)>) -> (r: Vec<usize>)
    ensures
        r@ == spec_cdt_functions(registry_view(function_paths), listing_view(entries)),
{
    let mut out: Vec<usize> = Vec::new();
    let n = function_paths.len();
    let mut i: usize = 0;
    proof {
        assert(registry_view(function_paths).take(0) =~= Seq::<(usize, Seq<char>)>::empty());
    }
    while i < n
        invariant
            i <= n == function_paths@.len(),
            out@ == spec_cdt_functions(registry_view(function_paths).take(i as int), listing_view(entries)),
        decreases n - i,
    {
        let e = &function_paths[i];
        proof {
            assert(registry_view(function_paths).take(i + 1).drop_last()
                =~= registry_view(function_paths).take(i as int));
            assert(registry_view(function_paths).take(i + 1).last()
                == (function_paths@[i as int].0, function_paths@[i as int].1@));
        }
        let name_len = e.1.as_str().unicode_len();
        if name_len >= 4 {
            if has_companion(entries, e.1.as_str()) {
                out.push(e.0);
            }
        }
        i += 1;
    }
    proof {
        assert(registry_view(function_paths).take(n as int) =~= registry_view(function_paths));
    }
    out
}

} // verus!
