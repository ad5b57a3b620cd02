//! The fuzz project's manifest: the marker that makes it one, and the fuzz
//! targets it declares.

use vstd::prelude::*;
use vstd::string::*;
use crate::options::texts;
use crate::text::{char_seq_le, lemma_char_seq_le_total, str_eq, text_le};

verus! {

/// A TOML value, as far as the manifest logic reads it.
pub enum TomlValue {
    Str(String),
    Integer(i64),
    Boolean(bool),
    Array(Vec<TomlValue>),
    /// Keys and values, each key once.
    Table(Vec<(String, TomlValue)>),
    /// A float or a date, which the manifest logic never reads.
    Other,
}

/// The value under `key` in the entries `es`, if any.
pub open spec fn entry_value(es: Seq<(String, TomlValue)>, key: Seq<char>) -> Option<TomlValue>
    decreases es.len(),
{
    if es.len() == 0 {
        None
    } else if es[0].0@ == key {
        Some(es[0].1)
    } else {
        entry_value(es.drop_first(), key)
    }
}

/// The value under `key` of a table; `None` for anything but a table.
pub open spec fn get_spec(v: TomlValue, key: Seq<char>) -> Option<TomlValue> {
    match v {
        TomlValue::Table(es) => entry_value(es@, key),
        _ => None,
    }
}

/// `v` is the manifest of a fuzz project: `package.metadata.cargo-fuzz` is true.
pub open spec fn is_fuzz_manifest_spec(v: TomlValue) -> bool {
    match get_spec(v, "package"@) {
        Some(p) => match get_spec(p, "metadata"@) {
            Some(m) => get_spec(m, "cargo-fuzz"@) == Some(TomlValue::Boolean(true)),
            None => false,
        },
        None => false,
    }
}

/// The `name` strings of the `[[bin]]` entries, in order; entries without one
/// are passed over.
pub open spec fn bin_names(bins: Seq<TomlValue>) -> Seq<Seq<char>>
    decreases bins.len(),
{
    if bins.len() == 0 {
        Seq::empty()
    } else {
        bin_names(bins.drop_last()) + match get_spec(bins.last(), "name"@) {
            Some(TomlValue::Str(s)) => seq![s@],
            _ => Seq::empty(),
        }
    }
}

/// The names of the fuzz targets that the manifest `v` declares, in order.
pub open spec fn declared_targets(v: TomlValue) -> Seq<Seq<char>> {
    match get_spec(v, "bin"@) {
        Some(TomlValue::Array(bins)) => bin_names(bins@),
        _ => Seq::empty(),
    }
}

impl TomlValue {
    /// The value under `key`, if this is a table that has one.
    pub fn get(&self, key: &str) -> (r: Option<&TomlValue>)
        ensures
            match r {
                Some(x) => get_spec(*self, key@) == Some(*x),
                None => get_spec(*self, key@) is None,
            },
    {
        match self {
            TomlValue::Table(es) => {
                let mut i: usize = 0;
                assert(es@.subrange(0, es@.len() as int) =~= es@);
                while i < es.len()
                    invariant
                        i <= es@.len(),
                        *self == TomlValue::Table(*es),
                        entry_value(es@, key@) == entry_value(es@.subrange(i as int, es@.len() as int), key@),
                    decreases es@.len() - i,
                {
                    let ghost rest = es@.subrange(i as int, es@.len() as int);
                    assert(rest[0] == es@[i as int]);
                    assert(rest.drop_first() =~= es@.subrange(i + 1, es@.len() as int));
                    if str_eq(es[i].0.as_str(), key) {
                        assert(entry_value(rest, key@) == Some(es@[i as int].1));
                        return Some(&es[i].1);
                    }
                    i += 1;
                }
                None
            },
            _ => None,
        }
    }
}

/// Whether `v` is the manifest of a fuzz project.
pub fn is_fuzz_manifest(v: &TomlValue) -> (r: bool)
    ensures
        r == is_fuzz_manifest_spec(*v),
{
    match v.get("package") {
        Some(p) => match p.get("metadata") {
            Some(m) => match m.get("cargo-fuzz") {
                Some(TomlValue::Boolean(b)) => *b,
                _ => false,
            },
            None => false,
        },
        None => false,
    }
}

/// The names of the fuzz targets that the manifest `v` declares, in order.
pub fn declared_target_names(v: &TomlValue) -> (r: Vec<String>)
    ensures
        texts(r@) == declared_targets(*v),
{
    let mut r: Vec<String> = Vec::new();
    match v.get("bin") {
        Some(TomlValue::Array(bins)) => {
            let mut i: usize = 0;
            assert(texts(r@) =~= bin_names(bins@.subrange(0, 0)));
            while i < bins.len()
                invariant
                    i <= bins@.len(),
                    texts(r@) == bin_names(bins@.subrange(0, i as int)),
                decreases bins@.len() - i,
            {
                let ghost pre = bins@.subrange(0, i + 1);
                assert(pre.drop_last() =~= bins@.subrange(0, i as int));
                let ghost before = r@;
                match bins[i].get("name") {
                    Some(TomlValue::Str(s)) => {
                        r.push(s.clone());
                        assert(texts(r@) =~= texts(before) + seq![s@]);
                    },
                    _ => {
                        assert(texts(r@) =~= texts(before) + Seq::<Seq<char>>::empty());
                    },
                }
                i += 1;
            }
            assert(bins@.subrange(0, i as int) =~= bins@);
        },
        _ => {},
    }
    r
}

/// Why a project manifest cannot be read.
#[derive(Clone, Copy, Debug, PartialEq, Eq, Structural)]
pub enum ManifestError {
    /// `package.name` is missing or not a string.
    MalformedName,
    /// `package.edition` is there but not a string.
    MalformedEdition,
}

/// What the templates need of the project being fuzzed.
pub struct Manifest {
    pub crate_name: String,
    pub edition: Option<String>,
}

/// The package table's string value under `key`, when it is one.
pub open spec fn package_string(v: TomlValue, key: Seq<char>) -> Option<Seq<char>> {
    match get_spec(v, "package"@) {
        Some(p) => match get_spec(p, key) {
            Some(TomlValue::Str(s)) => Some(s@),
            _ => None,
        },
        None => None,
    }
}

impl Manifest {
    /// Reads the crate name and edition from the project manifest `v`.
    pub fn from_value(v: &TomlValue) -> (r: Result<Manifest, ManifestError>)
        ensures
            package_string(*v, "name"@) is None <==> r == Err::<Manifest, ManifestError>(
                ManifestError::MalformedName,
            ),
            r == Err::<Manifest, ManifestError>(ManifestError::MalformedEdition) <==> (package_string(
                *v,
                "name"@,
            ) is Some && get_spec(get_spec(*v, "package"@)->0, "edition"@) is Some
                && package_string(*v, "edition"@) is None),
            r matches Ok(m) ==> Some(m.crate_name@) == package_string(*v, "name"@) && match m.edition {
                Some(e) => package_string(*v, "edition"@) == Some(e@),
                None => get_spec(get_spec(*v, "package"@)->0, "edition"@) is None,
            },
    {
        let package = match v.get("package") {
            Some(p) => p,
            None => return Err(ManifestError::MalformedName),
        };
        let crate_name = match package.get("name") {
            Some(TomlValue::Str(s)) => s.clone(),
            _ => return Err(ManifestError::MalformedName),
        };
        let edition = match package.get("edition") {
            None => None,
            Some(TomlValue::Str(e)) => Some(e.clone()),
            Some(_) => return Err(ManifestError::MalformedEdition),
        };
        Ok(Manifest { crate_name, edition })
    }
}

/// Each name is ordered before or equal to the next one.
pub open spec fn sorted_texts(s: Seq<Seq<char>>) -> bool {
    forall|i: int| 0 <= i < s.len() - 1 ==> char_seq_le(#[trigger] s[i], s[i + 1])
}

/// The names in ascending order (character by character), each as often as given.
pub fn sort_names(names: Vec<String>) -> (r: Vec<String>)
    ensures
        sorted_texts(texts(r@)),
        texts(r@).to_multiset() == texts(names@).to_multiset(),
{
    let mut r: Vec<String> = Vec::new();
    let mut k: usize = 0;
    proof {
        assert(texts(r@) =~= Seq::<Seq<char>>::empty());
        assert(texts(names@.subrange(0, 0)) =~= Seq::<Seq<char>>::empty());
    }
    while k < names.len()
        invariant
            k <= names@.len(),
            sorted_texts(texts(r@)),
            texts(r@).to_multiset() == texts(names@.subrange(0, k as int)).to_multiset(),
        decreases names@.len() - k,
    {
        let x = names[k].clone();
        let mut j: usize = 0;
        while j < r.len() && text_le(r[j].as_str(), x.as_str())
            invariant
                j <= r@.len(),
                forall|m: int| 0 <= m < j ==> char_seq_le(#[trigger] r@[m]@, x@),
            decreases r@.len() - j,
        {
            j += 1;
        }
        let ghost before = r@;
        proof {
            if j < before.len() {
                lemma_char_seq_le_total(before[j as int]@, x@);
            }
        }
        r.insert(j, x);
        proof {
            let t = texts(r@);
            assert(t =~= texts(before).insert(j as int, x@));
            assert forall|i: int| 0 <= i < t.len() - 1 implies char_seq_le(#[trigger] t[i], t[i + 1]) by {
                if i < j - 1 {
                    assert(t[i] == texts(before)[i] && t[i + 1] == texts(before)[i + 1]);
                } else if i == j - 1 {
                    assert(t[i] == before[i]@);
                } else if i == j {
                    assert(t[i + 1] == before[j as int]@);
                } else {
                    assert(t[i] == texts(before)[i - 1] && t[i + 1] == texts(before)[i]);
                }
            }
            vstd::seq_lib::to_multiset_insert(texts(before), j as int, x@);
            assert(texts(names@.subrange(0, k + 1)) =~= texts(names@.subrange(0, k as int)).push(
                x@,
            ));
            vstd::seq_lib::to_multiset_build(texts(names@.subrange(0, k as int)), x@);
        }
        k += 1;
    }
    assert(names@.subrange(0, k as int) =~= names@);
    r
}

/// The fuzz targets that the manifest `v` declares, sorted.
pub fn collect_targets(v: &TomlValue) -> (r: Vec<String>)
    ensures
        sorted_texts(texts(r@)),
        texts(r@).to_multiset() == declared_targets(*v).to_multiset(),
{
    sort_names(declared_target_names(v))
}

} // verus!
