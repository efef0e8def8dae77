//! Field-map filtering: case-insensitive lookup of named fields, with an
//! explicit miss outcome, and the `host` accessor that substitutes a sentinel.

use vstd::prelude::*;
use vstd::string::StringExecFns;

verus! {

/// One name/value pair of a field map.
pub struct FieldEntry {
    pub name: String,
    pub value: String,
}

/// Spec-level image of a field entry.
pub struct FieldEntryView {
    pub name: Seq<char>,
    pub value: Seq<char>,
}

impl DeepView for FieldEntry {
    type V = FieldEntryView;

    open spec fn deep_view(&self) -> FieldEntryView {
        FieldEntryView { name: self.name@, value: self.value@ }
    }
}

/// Ordered key/value multimap modelling protocol header fields.
/// Lookups compare names case-insensitively; earlier entries win.
pub struct FieldMap {
    pub entries: Vec<FieldEntry>,
}

impl DeepView for FieldMap {
    type V = Seq<FieldEntryView>;

    open spec fn deep_view(&self) -> Seq<FieldEntryView> {
        self.entries.deep_view()
    }
}

impl FieldMap {
    pub fn new() -> (r: FieldMap)
        ensures
            r.deep_view() =~= Seq::<FieldEntryView>::empty(),
    {
        FieldMap { entries: Vec::new() }
    }

    /// Appends a field; existing entries keep their positions, so an earlier
    /// entry under the same name still wins lookups.
    pub fn insert(&mut self, name: String, value: String)
        ensures
            final(self).deep_view() =~= old(self).deep_view().push(
                FieldEntryView { name: name@, value: value@ },
            ),
    {
        self.entries.push(FieldEntry { name, value });
    }
}

/// ASCII upper-case letters fold to lower case; every other character is unchanged.
pub open spec fn fold_char(c: char) -> char {
    if 'A' as u32 <= c as u32 && c as u32 <= 'Z' as u32 {
        ((c as u32) + 32) as char
    } else {
        c
    }
}

/// Character-wise case folding of a field name.
pub open spec fn fold_name(s: Seq<char>) -> Seq<char> {
    s.map_values(|c: char| fold_char(c))
}

/// Relies on str::eq_ignore_ascii_case: true exactly when the two strings agree
/// once ASCII letters are folded to lower case.
#[verifier::external_body]
fn names_match(a: &str, b: &str) -> (r: bool)
    ensures
        r == (fold_name(a@) == fold_name(b@)),
{
    a.eq_ignore_ascii_case(b)
}

/// First value stored under a name, compared case-insensitively; `None` on a miss.
pub open spec fn lookup_spec(entries: Seq<FieldEntryView>, name: Seq<char>) -> Option<Seq<char>>
    decreases entries.len(),
{
    if entries.len() == 0 {
        None
    } else if fold_name(entries[0].name) == fold_name(name) {
        Some(entries[0].value)
    } else {
        lookup_spec(entries.drop_first(), name)
    }
}

/// The host field's value, or the literal sentinel "unknown" when it is absent.
pub open spec fn host_of(entries: Seq<FieldEntryView>) -> Seq<char> {
    match lookup_spec(entries, "host"@) {
        Some(v) => v,
        None => "unknown"@,
    }
}

#[derive(Debug)]
enum FilterErrorKind {
    NotFound,
}

/// A requested field was absent. Absence is data, not a failure: callers
/// recover by substituting a policy-chosen default.
#[derive(Debug)]
pub struct FilterError {
    kind: FilterErrorKind,
}

impl FilterError {
    /// Human-readable description of the miss.
    pub fn describe(&self) -> (r: String)
        ensures
            r@ == "filter not found"@,
    {
        String::from_str("filter not found")
    }
}

/// Pure lookup utility over a field map.
pub struct Filter {}

impl Filter {
    /// Case-insensitive lookup: `Ok` with the first stored value on a hit,
    /// `Err` on a miss; never panics on absence.
    pub fn header(fields: &FieldMap, name: &str) -> (r: Result<String, FilterError>)
        ensures
            match r {
                Ok(v) => lookup_spec(fields.deep_view(), name@) == Some(v@),
                Err(_) => lookup_spec(fields.deep_view(), name@) is None,
            },
    {
        let n = fields.entries.len();
        proof {
            assert(fields.deep_view().skip(0) =~= fields.deep_view());
        }
        let mut i: usize = 0;
        while i < n
            invariant
                n == fields.entries.len(),
                i <= n,
                lookup_spec(fields.deep_view(), name@) == lookup_spec(
                    fields.deep_view().skip(i as int),
                    name@,
                ),
            decreases n - i,
        {
            proof {
                assert(fields.deep_view()[i as int] == fields.entries[i as int].deep_view());
            }
            if names_match(fields.entries[i].name.as_str(), name) {
                proof {
                    assert(fields.deep_view().skip(i as int)[0] == fields.deep_view()[i as int]);
                }
                return Ok(fields.entries[i].value.clone());
            }
            proof {
                lemma_lookup_skip_step(fields.deep_view(), name@, i as int);
            }
            i += 1;
        }
        proof {
            assert(fields.deep_view().skip(n as int) =~= Seq::<FieldEntryView>::empty());
        }
        Err(FilterError { kind: FilterErrorKind::NotFound })
    }

    /// Convenience accessor: the host field, substituting the literal
    /// "unknown" on a miss. The substitution is this caller-side policy;
    /// `header` itself surfaces the miss faithfully.
    pub fn host(fields: &FieldMap) -> (r: String)
        ensures
            r@ == host_of(fields.deep_view()),
    {
        match Filter::header(fields, "host") {
            Ok(v) => v,
            Err(_) => String::from_str("unknown"),
        }
    }
}

proof fn lemma_lookup_skip_step(entries: Seq<FieldEntryView>, name: Seq<char>, i: int)
    requires
        0 <= i < entries.len(),
        fold_name(entries[i].name) != fold_name(name),
    ensures
        lookup_spec(entries.skip(i), name) == lookup_spec(entries.skip(i + 1), name),
{
    assert(entries.skip(i).drop_first() =~= entries.skip(i + 1));
    assert(entries.skip(i)[0] == entries[i]);
}

/// Law: a name stored in the map (compared case-insensitively) is found, and
/// the hit carries the value of its first matching entry.
pub proof fn lemma_lookup_present(entries: Seq<FieldEntryView>, name: Seq<char>, i: int)
    requires
        0 <= i < entries.len(),
        fold_name(entries[i].name) == fold_name(name),
        forall|j: int| 0 <= j < i ==> fold_name(entries[j].name) != fold_name(name),
    ensures
        lookup_spec(entries, name) == Some(entries[i].value),
    decreases i,
{
    if i > 0 {
        assert(entries.drop_first() =~= entries.skip(1));
        lemma_lookup_present(entries.drop_first(), name, i - 1);
    }
}

/// Law: a name stored under no casing in the map yields a miss.
pub proof fn lemma_lookup_absent(entries: Seq<FieldEntryView>, name: Seq<char>)
    requires
        forall|j: int| 0 <= j < entries.len() ==> fold_name(entries[j].name) != fold_name(name),
    ensures
        lookup_spec(entries, name) is None,
    decreases entries.len(),
{
    if entries.len() > 0 {
        lemma_lookup_absent(entries.drop_first(), name);
    }
}

/// Law: lookup is insensitive to the casing of the queried name.
pub proof fn lemma_lookup_case_insensitive(
    entries: Seq<FieldEntryView>,
    name_a: Seq<char>,
    name_b: Seq<char>,
)
    requires
        fold_name(name_a) == fold_name(name_b),
    ensures
        lookup_spec(entries, name_a) == lookup_spec(entries, name_b),
    decreases entries.len(),
{
    if entries.len() > 0 {
        lemma_lookup_case_insensitive(entries.drop_first(), name_a, name_b);
    }
}

} // verus!
