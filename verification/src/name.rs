//! Identity and naming resolver.
//!
//! When the caller of a registration operation does not supply an explicit
//! element name, one is derived here: for a native type, the bare type name
//! (the last `::`-qualified segment of its fully qualified identifier); for
//! a markup resource path, the base file name (the last `/`-delimited
//! segment, truncated at the first `.`).
//!
//! Identifiers and paths are ASCII byte strings.  An embedded null byte in
//! either is a programmer error in the embedding application, so both
//! derivations leave such inputs out of their domain.

use vstd::prelude::*;

verus! {

/// A byte string free of embedded null bytes, as the host's C-style
/// interface requires.
pub open spec fn no_nul(s: Seq<u8>) -> bool {
    forall|i: int| 0 <= i < s.len() ==> s[i] != 0
}

/// Index just after the last `::` (bytes 58, 58) that ends strictly before
/// position `i`, or 0 when there is none.
pub open spec fn bare_start(s: Seq<u8>, i: int) -> int
    recommends
        0 <= i <= s.len(),
    decreases i,
{
    if i < 2 {
        0
    } else if s[i - 2] == 58 && s[i - 1] == 58 {
        i
    } else {
        bare_start(s, i - 1)
    }
}

/// The bare type name: the suffix of a fully qualified identifier after its
/// last `::`, or the whole identifier when it is unqualified.
pub open spec fn spec_type_name(s: Seq<u8>) -> Seq<u8> {
    s.subrange(bare_start(s, s.len() as int), s.len() as int)
}

pub proof fn lemma_bare_start_bounds(s: Seq<u8>, i: int)
    requires
        0 <= i <= s.len(),
    ensures
        0 <= bare_start(s, i) <= i,
    decreases i,
{
    if i >= 2 && !(s[i - 2] == 58 && s[i - 1] == 58) {
        lemma_bare_start_bounds(s, i - 1);
    }
}

/// Derives the element name of a native type from its fully qualified
/// identifier: everything after the last `::`.
pub fn derive_type_name(full: &[u8]) -> (name: Vec<u8>)
    requires
        no_nul(full@),
    ensures
        name@ == spec_type_name(full@),
{
    let n = full.len();
    let mut i: usize = n;
    while i >= 2 && !(full[i - 2] == 58 && full[i - 1] == 58)
        invariant
            0 <= i <= n,
            n == full@.len(),
            bare_start(full@, n as int) == bare_start(full@, i as int),
        decreases i,
    {
        i = i - 1;
    }
    if i < 2 {
        i = 0;
    }
    proof {
        lemma_bare_start_bounds(full@, n as int);
    }
    let mut name: Vec<u8> = Vec::new();
    let mut j: usize = i;
    while j < n
        invariant
            i <= j <= n,
            n == full@.len(),
            name@ =~= full@.subrange(i as int, j as int),
        decreases n - j,
    {
        name.push(full[j]);
        j = j + 1;
    }
    proof {
        assert(name@ =~= spec_type_name(full@));
    }
    name
}

/// Index just after the last `/` (byte 47) strictly before position `i`, or
/// 0 when there is none.
pub open spec fn segment_start(s: Seq<u8>, i: int) -> int
    recommends
        0 <= i <= s.len(),
    decreases i,
{
    if i < 1 {
        0
    } else if s[i - 1] == 47 {
        i
    } else {
        segment_start(s, i - 1)
    }
}

/// Index of the first `.` (byte 46) at or after position `i`, or the length
/// of `s` when there is none.
pub open spec fn stem_end(s: Seq<u8>, i: int) -> int
    recommends
        0 <= i <= s.len(),
    decreases s.len() - i,
{
    if i >= s.len() {
        i
    } else if s[i] == 46 {
        i
    } else {
        stem_end(s, i + 1)
    }
}

/// The base file name of a resource path: the last `/`-delimited segment,
/// truncated at its first `.`.
pub open spec fn spec_file_name(s: Seq<u8>) -> Seq<u8> {
    s.subrange(segment_start(s, s.len() as int), stem_end(s, segment_start(s, s.len() as int)))
}

pub proof fn lemma_segment_start_bounds(s: Seq<u8>, i: int)
    requires
        0 <= i <= s.len(),
    ensures
        0 <= segment_start(s, i) <= i,
    decreases i,
{
    if i >= 1 && s[i - 1] != 47 {
        lemma_segment_start_bounds(s, i - 1);
    }
}

pub proof fn lemma_stem_end_bounds(s: Seq<u8>, i: int)
    requires
        0 <= i <= s.len(),
    ensures
        i <= stem_end(s, i) <= s.len(),
    decreases s.len() - i,
{
    if i < s.len() && s[i] != 46 {
        lemma_stem_end_bounds(s, i + 1);
    }
}

/// Derives the element name of a markup resource from its path: the last
/// path segment without extension.
pub fn derive_file_name(path: &[u8]) -> (name: Vec<u8>)
    requires
        no_nul(path@),
    ensures
        name@ == spec_file_name(path@),
{
    let n = path.len();
    let mut i: usize = n;
    while i >= 1 && path[i - 1] != 47
        invariant
            0 <= i <= n,
            n == path@.len(),
            segment_start(path@, n as int) == segment_start(path@, i as int),
        decreases i,
    {
        i = i - 1;
    }
    proof {
        lemma_segment_start_bounds(path@, n as int);
    }
    let mut j: usize = i;
    while j < n && path[j] != 46
        invariant
            i <= j <= n,
            n == path@.len(),
            stem_end(path@, i as int) == stem_end(path@, j as int),
        decreases n - j,
    {
        j = j + 1;
    }
    proof {
        lemma_stem_end_bounds(path@, i as int);
    }
    let mut name: Vec<u8> = Vec::new();
    let mut k: usize = i;
    while k < j
        invariant
            i <= k <= j <= n,
            n == path@.len(),
            name@ =~= path@.subrange(i as int, k as int),
        decreases j - k,
    {
        name.push(path[k]);
        k = k + 1;
    }
    proof {
        assert(name@ =~= spec_file_name(path@));
    }
    name
}

/// Holds when a byte string contains no `::` qualifier separator, as a bare
/// type name never does.
pub open spec fn qualifier_free(s: Seq<u8>) -> bool {
    forall|i: int| #![trigger s[i]] 0 <= i && i + 1 < s.len() ==> !(s[i] == 58 && s[i + 1] == 58)
}

proof fn lemma_bare_start_after_sep(s: Seq<u8>, k: int, i: int)
    requires
        2 <= k <= i <= s.len(),
        s[k - 2] == 58 && s[k - 1] == 58,
        forall|j: int| #![trigger s[j - 2]] k < j <= i ==> !(s[j - 2] == 58 && s[j - 1] == 58),
    ensures
        bare_start(s, i) == k,
    decreases i,
{
    if i > k {
        lemma_bare_start_after_sep(s, k, i - 1);
    }
}

/// Law: the derived type name depends only on the bare segment.  Any two
/// fully qualified identifiers that end in the same `::`-separated bare
/// name derive that bare name, and hence derive equal names.
pub proof fn lemma_type_name_same_bare(qual_a: Seq<u8>, qual_b: Seq<u8>, bare: Seq<u8>)
    requires
        qualifier_free(bare),
        bare.len() > 0 ==> bare[0] != 58,
    ensures
        spec_type_name(qual_a + seq![58u8, 58u8] + bare) == bare,
        spec_type_name(qual_a + seq![58u8, 58u8] + bare) == spec_type_name(
            qual_b + seq![58u8, 58u8] + bare,
        ),
{
    lemma_type_name_of_qualified(qual_a, bare);
    lemma_type_name_of_qualified(qual_b, bare);
}

proof fn lemma_type_name_of_qualified(qual: Seq<u8>, bare: Seq<u8>)
    requires
        qualifier_free(bare),
        bare.len() > 0 ==> bare[0] != 58,
    ensures
        spec_type_name(qual + seq![58u8, 58u8] + bare) == bare,
{
    let s = qual + seq![58u8, 58u8] + bare;
    let k = qual.len() + 2;
    assert(s[k - 2] == 58 && s[k - 1] == 58);
    assert forall|j: int| #![trigger s[j - 2]] k < j <= s.len() implies !(s[j - 2] == 58 && s[j - 1] == 58) by {
        if j == k + 1 {
            assert(s[j - 1] == bare[0]);
        } else {
            assert(s[j - 2] == bare[j - 2 - k] && s[j - 1] == bare[j - 1 - k]);
        }
    }
    lemma_bare_start_after_sep(s, k as int, s.len() as int);
    assert(s.subrange(k as int, s.len() as int) =~= bare);
}

/// Holds when a byte string contains no `/` path separator.
pub open spec fn slash_free(s: Seq<u8>) -> bool {
    forall|i: int| 0 <= i < s.len() ==> s[i] != 47
}

/// Holds when a byte string contains no `.` extension separator.
pub open spec fn dot_free(s: Seq<u8>) -> bool {
    forall|i: int| 0 <= i < s.len() ==> s[i] != 46
}

proof fn lemma_segment_start_after_slash(s: Seq<u8>, k: int, i: int)
    requires
        1 <= k <= i <= s.len(),
        s[k - 1] == 47,
        forall|j: int| k <= j < i ==> s[j] != 47,
    ensures
        segment_start(s, i) == k,
    decreases i,
{
    if i > k {
        lemma_segment_start_after_slash(s, k, i - 1);
    }
}

proof fn lemma_segment_start_no_slash(s: Seq<u8>, i: int)
    requires
        0 <= i <= s.len(),
        forall|j: int| 0 <= j < i ==> s[j] != 47,
    ensures
        segment_start(s, i) == 0,
    decreases i,
{
    if i > 0 {
        lemma_segment_start_no_slash(s, i - 1);
    }
}

proof fn lemma_stem_end_first_dot(s: Seq<u8>, i: int, k: int)
    requires
        0 <= i <= k < s.len(),
        s[k] == 46,
        forall|j: int| i <= j < k ==> s[j] != 46,
    ensures
        stem_end(s, i) == k,
    decreases k - i,
{
    if i < k {
        lemma_stem_end_first_dot(s, i + 1, k);
    }
}

proof fn lemma_stem_end_no_dot(s: Seq<u8>, i: int)
    requires
        0 <= i <= s.len(),
        forall|j: int| i <= j < s.len() ==> s[j] != 46,
    ensures
        stem_end(s, i) == s.len(),
    decreases s.len() - i,
{
    if i < s.len() {
        lemma_stem_end_no_dot(s, i + 1);
    }
}

/// Law: the derived file name strips exactly one leading directory path
/// and one trailing extension.  For a path `dir/stem.ext` whose stem holds
/// neither separator and whose extension holds no further `/`, the derived
/// name is the stem; so it is for `stem.ext` with no directory, and for a
/// bare `stem` with no extension.
pub proof fn lemma_file_name_shapes(dir: Seq<u8>, stem: Seq<u8>, ext: Seq<u8>)
    requires
        slash_free(stem),
        dot_free(stem),
        slash_free(ext),
    ensures
        spec_file_name(dir + seq![47u8] + stem + seq![46u8] + ext) == stem,
        spec_file_name(stem + seq![46u8] + ext) == stem,
        spec_file_name(stem) == stem,
{
    let s1 = dir + seq![47u8] + stem + seq![46u8] + ext;
    let k: int = dir.len() as int + 1;
    assert(s1[k - 1] == 47);
    assert forall|j: int| k <= j < s1.len() implies s1[j] != 47 by {
        if j < k + stem.len() as int {
            assert(s1[j] == stem[j - k]);
        } else if j == k + stem.len() as int {
            assert(s1[j] == 46);
        } else {
            assert(s1[j] == ext[j - (k + stem.len() as int + 1)]);
        }
    }
    lemma_segment_start_after_slash(s1, k, s1.len() as int);
    assert forall|j: int| k <= j < k + stem.len() as int implies s1[j] != 46 by {
        assert(s1[j] == stem[j - k]);
    }
    assert(s1[k + stem.len() as int] == 46);
    lemma_stem_end_first_dot(s1, k, k + stem.len() as int);
    assert(s1.subrange(k, k + stem.len() as int) =~= stem);

    let s2 = stem + seq![46u8] + ext;
    assert forall|j: int| 0 <= j < s2.len() implies s2[j] != 47 by {
        if j < stem.len() as int {
            assert(s2[j] == stem[j]);
        } else if j == stem.len() as int {
            assert(s2[j] == 46);
        } else {
            assert(s2[j] == ext[j - (stem.len() as int + 1)]);
        }
    }
    lemma_segment_start_no_slash(s2, s2.len() as int);
    assert forall|j: int| 0 <= j < stem.len() implies s2[j] != 46 by {
        assert(s2[j] == stem[j]);
    }
    assert(s2[stem.len() as int] == 46);
    lemma_stem_end_first_dot(s2, 0, stem.len() as int);
    assert(s2.subrange(0, stem.len() as int) =~= stem);

    lemma_segment_start_no_slash(stem, stem.len() as int);
    lemma_stem_end_no_dot(stem, 0);
    assert(stem.subrange(0, stem.len() as int) =~= stem);
}

} // verus!
