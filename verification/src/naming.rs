//! Output naming: derives the base name of an input file and the name of the
//! artifact produced for it.
//!
//! File names are handled as byte strings, the form in which a directory
//! listing hands them over.  A name's *stem* is the part before the dot that
//! separates it from its extension; the separating dot is the last dot of the
//! name, unless it stands first (a leading dot marks a hidden file, not an
//! extension).

use vstd::prelude::*;

verus! {

/// The ASCII dot that separates a file name's stem from its extension.
pub open spec fn dot_byte() -> u8 {
    46u8
}

/// The ASCII separator used when resolving a file name against a directory.
pub open spec fn separator_byte() -> u8 {
    47u8
}

/// The extension that marks a directory entry as an input description:
/// `json`.
pub open spec fn input_suffix() -> Seq<u8> {
    seq![106u8, 115u8, 111u8, 110u8]
}

/// The suffix appended to a base name to form an artifact's file name:
/// `.wtns`.
pub open spec fn output_suffix() -> Seq<u8> {
    seq![46u8, 119u8, 116u8, 110u8, 115u8]
}

/// The index of the dot that separates a name's stem from its extension:
/// the last dot of the name, provided it does not stand first.
pub open spec fn last_embedded_dot(name: Seq<u8>) -> Option<int>
    decreases name.len(),
{
    if name.len() <= 1 {
        None
    } else if name.last() == dot_byte() {
        Some(name.len() - 1)
    } else {
        last_embedded_dot(name.drop_last())
    }
}

/// A name's stem: everything before the separating dot, or the whole name
/// when there is no extension.
pub open spec fn file_stem_of(name: Seq<u8>) -> Seq<u8> {
    match last_embedded_dot(name) {
        Some(i) => name.take(i),
        None => name,
    }
}

/// A name's extension: everything after the separating dot, if there is one.
pub open spec fn extension_of(name: Seq<u8>) -> Option<Seq<u8>> {
    match last_embedded_dot(name) {
        Some(i) => Some(name.skip(i + 1)),
        None => None,
    }
}

/// Whether a directory entry is recognized as an input description file.
pub open spec fn has_input_suffix(name: Seq<u8>) -> bool {
    extension_of(name) == Some(input_suffix())
}

/// The artifact file name derived from a base name.
pub open spec fn output_name_of(stem: Seq<u8>) -> Seq<u8> {
    stem + output_suffix()
}

/// A file name resolved against a directory.
pub open spec fn joined(dir: Seq<u8>, name: Seq<u8>) -> Seq<u8> {
    dir + seq![separator_byte()] + name
}

/// The separating dot, when there is one, never stands first and really
/// holds a dot.
pub proof fn lemma_dot_in_range(name: Seq<u8>)
    ensures
        match last_embedded_dot(name) {
            Some(i) => 1 <= i < name.len() && name[i] == dot_byte(),
            None => true,
        },
    decreases name.len(),
{
    if name.len() <= 1 {
    } else if name.last() == dot_byte() {
    } else {
        lemma_dot_in_range(name.drop_last());
        assert forall|i: int| 0 <= i < name.len() - 1 implies name.drop_last()[i] == name[i] by {}
    }
}

/// Raised when an input's base name cannot be derived: the name has no
/// non-empty stem.
#[derive(Clone, Copy, Debug, PartialEq, Eq, Structural)]
pub struct NamingError;

/// Copies the first `n` bytes of a byte string.
fn copy_prefix(v: &Vec<u8>, n: usize) -> (r: Vec<u8>)
    requires
        n <= v@.len(),
    ensures
        r@ == v@.take(n as int),
{
    let mut r: Vec<u8> = Vec::new();
    let mut j: usize = 0;
    while j < n
        invariant
            j <= n,
            n <= v@.len(),
            r@ == v@.take(j as int),
        decreases n - j,
    {
        r.push(v[j]);
        proof {
            assert(v@.take(j as int).push(v@[j as int]) =~= v@.take(j as int + 1));
        }
        j = j + 1;
    }
    r
}

/// Copies a byte string.
pub fn clone_bytes(v: &Vec<u8>) -> (r: Vec<u8>)
    ensures
        r@ == v@,
{
    let r = copy_prefix(v, v.len());
    proof {
        assert(v@.take(v@.len() as int) =~= v@);
    }
    r
}

/// Finds the dot that separates stem from extension by scanning from the
/// end of the name.
fn find_last_embedded_dot(name: &Vec<u8>) -> (r: Option<usize>)
    ensures
        match r {
            Some(i) => last_embedded_dot(name@) == Some(i as int),
            None => last_embedded_dot(name@) is None,
        },
{
    let mut i: usize = name.len();
    proof {
        assert(name@.take(name@.len() as int) =~= name@);
    }
    while i > 1
        invariant
            i <= name@.len(),
            last_embedded_dot(name@) == last_embedded_dot(name@.take(i as int)),
        decreases i,
    {
        proof {
            assert(name@.take(i as int).last() == name@[i as int - 1]);
            assert(name@.take(i as int).drop_last() =~= name@.take(i as int - 1));
        }
        if name[i - 1] == 46u8 {
            return Some(i - 1);
        }
        i = i - 1;
    }
    None
}

/// Derives the base name of a directory entry: the file name with its
/// extension stripped.  Fails exactly when nothing would remain, that is on
/// an empty name.
pub fn derive_base_name(name: &Vec<u8>) -> (r: Result<Vec<u8>, NamingError>)
    ensures
        r is Ok <==> file_stem_of(name@).len() > 0,
        r matches Ok(stem) ==> stem@ == file_stem_of(name@),
{
    proof {
        lemma_dot_in_range(name@);
    }
    match find_last_embedded_dot(name) {
        Some(i) => Ok(copy_prefix(name, i)),
        None => {
            if name.len() == 0 {
                Err(NamingError)
            } else {
                Ok(clone_bytes(name))
            }
        },
    }
}

/// Decides whether a directory entry carries the recognized input suffix.
pub fn matches_input_suffix(name: &Vec<u8>) -> (r: bool)
    ensures
        r == has_input_suffix(name@),
{
    proof {
        lemma_dot_in_range(name@);
    }
    match find_last_embedded_dot(name) {
        None => false,
        Some(i) => {
            let ext_len: usize = name.len() - i - 1;
            proof {
                assert(name@.skip(i as int + 1).len() == ext_len);
            }
            if ext_len != 4 {
                false
            } else {
                proof {
                    let s = name@.skip(i as int + 1);
                    assert(s[0] == name@[i as int + 1]);
                    assert(s[1] == name@[i as int + 2]);
                    assert(s[2] == name@[i as int + 3]);
                    assert(s[3] == name@[i as int + 4]);
                }
                let hit = name[i + 1] == 106u8 && name[i + 2] == 115u8 && name[i + 3] == 111u8
                    && name[i + 4] == 110u8;
                proof {
                    let s = name@.skip(i as int + 1);
                    if hit {
                        assert(s =~= input_suffix());
                    } else {
                        assert(s != input_suffix());
                    }
                }
                hit
            }
        },
    }
}

/// Appends the artifact suffix to a base name.
pub fn output_file_name(stem: &Vec<u8>) -> (r: Vec<u8>)
    ensures
        r@ == output_name_of(stem@),
{
    let mut r = clone_bytes(stem);
    r.push(46u8);
    r.push(119u8);
    r.push(116u8);
    r.push(110u8);
    r.push(115u8);
    proof {
        assert(r@ =~= output_name_of(stem@));
    }
    r
}

/// Resolves a file name against a directory.
pub fn join_path(dir: &Vec<u8>, name: &Vec<u8>) -> (r: Vec<u8>)
    ensures
        r@ == joined(dir@, name@),
{
    let mut r = clone_bytes(dir);
    r.push(47u8);
    let mut j: usize = 0;
    proof {
        assert(dir@.push(separator_byte()) =~= dir@ + seq![separator_byte()]
            + name@.take(0int));
    }
    while j < name.len()
        invariant
            j <= name@.len(),
            r@ == dir@ + seq![separator_byte()] + name@.take(j as int),
        decreases name@.len() - j,
    {
        r.push(name[j]);
        proof {
            assert((dir@ + seq![separator_byte()] + name@.take(j as int)).push(
                name@[j as int]) =~= dir@ + seq![separator_byte()] + name@.take(j as int + 1));
        }
        j = j + 1;
    }
    proof {
        assert(name@.take(name@.len() as int) =~= name@);
    }
    r
}

/// Every input that carries the recognized suffix has a non-empty stem, so
/// deriving its base name, and with it the artifact's name, cannot fail.
/// Both are functions of the input name alone, so repeated runs derive the
/// same artifact name.
pub proof fn lemma_matching_name_names_artifact(name: Seq<u8>)
    requires
        has_input_suffix(name),
    ensures
        file_stem_of(name).len() > 0,
        output_name_of(file_stem_of(name)).len() > file_stem_of(name).len(),
{
    lemma_dot_in_range(name);
}

/// A recognized input name is exactly its stem followed by the dot and the
/// input suffix.
pub proof fn lemma_matching_name_decomposes(name: Seq<u8>)
    requires
        has_input_suffix(name),
    ensures
        name == file_stem_of(name) + seq![dot_byte()] + input_suffix(),
{
    lemma_dot_in_range(name);
    let i = last_embedded_dot(name)->Some_0;
    assert(name =~= name.take(i) + seq![name[i]] + name.skip(i + 1));
}

/// Distinct recognized input names have distinct stems: since a recognized
/// name is its stem plus the fixed suffix, two inputs that shared a stem
/// would be the same file.  No two work items, then, resolve to the same
/// artifact.
pub proof fn lemma_matching_names_have_distinct_stems(a: Seq<u8>, b: Seq<u8>)
    requires
        has_input_suffix(a),
        has_input_suffix(b),
        file_stem_of(a) == file_stem_of(b),
    ensures
        a == b,
{
    lemma_matching_name_decomposes(a);
    lemma_matching_name_decomposes(b);
}

/// Distinct base names derive distinct artifact names, so no two work items
/// resolve to the same output path.
pub proof fn lemma_output_names_injective(a: Seq<u8>, b: Seq<u8>)
    requires
        output_name_of(a) == output_name_of(b),
    ensures
        a == b,
{
    assert(output_name_of(a).len() == a.len() + output_suffix().len());
    assert(output_name_of(b).len() == b.len() + output_suffix().len());
    assert(a.len() == b.len());
    assert forall|i: int| 0 <= i < a.len() implies a[i] == b[i] by {
        assert(output_name_of(a)[i] == a[i]);
        assert(output_name_of(b)[i] == b[i]);
    }
    assert(a =~= b);
}

} // verus!
