//! The names of a schema are keys: no struct, no field of one struct and no
//! endpoint is named twice.

use vstd::prelude::*;
use crate::error::Error;
use crate::schema::{
    endpoint_defs_view, struct_defs_view, ApiSchema, ApiSchemaView, Endpoints, Structs,
};
use crate::search::{
    first_some, lemma_first_some_at, lemma_first_some_none, lemma_first_some_place,
};
use crate::text::{optional_name, str_eq};

verus! {

/// The keys of a mapping that is held as a list of pairs, in order.
pub open spec fn keys<T>(entries: Seq<(Seq<char>, T)>) -> Seq<Seq<char>> {
    Seq::new(entries.len(), |i: int| entries[i].0)
}

/// For each place of a list of keys: the key, where it stands at an earlier
/// place too.
pub open spec fn repeats(keys: Seq<Seq<char>>) -> Seq<Option<Seq<char>>> {
    Seq::new(
        keys.len(),
        |at: int|
            if keys.take(at).contains(keys[at]) {
                Some(keys[at])
            } else {
                None
            },
    )
}

/// The first key that stands at an earlier place too.
pub open spec fn first_repeat(keys: Seq<Seq<char>>) -> Option<Seq<char>> {
    first_some(repeats(keys))
}

/// No key repeats if and only if no two places hold the same key.
pub proof fn lemma_first_repeat_none(keys: Seq<Seq<char>>)
    ensures
        first_repeat(keys) is None <==> keys.no_duplicates(),
{
    let findings = repeats(keys);
    if keys.no_duplicates() {
        assert forall|at: int| 0 <= at < findings.len() implies findings[at] is None by {
            if keys.take(at).contains(keys[at]) {
                let earlier = choose|i: int|
                    0 <= i < keys.take(at).len() && keys.take(at)[i] == keys[at];
                assert(keys[earlier] == keys[at]);
            }
        }
        lemma_first_some_none(findings);
    } else {
        let (i, j) = choose|i: int, j: int|
            0 <= i < keys.len() && 0 <= j < keys.len() && i != j && keys[i] == keys[j];
        let (low, high) = if i < j {
            (i, j)
        } else {
            (j, i)
        };
        assert(keys.take(high)[low] == keys[high]);
        assert(findings[high] is Some);
        if first_some(findings) is None {
            lemma_first_some_place(findings);
        }
    }
}

/// The keys of a list of pairs whose first parts are strings.
pub open spec fn entry_keys<T>(entries: Seq<(String, T)>) -> Seq<Seq<char>> {
    Seq::new(entries.len(), |i: int| entries[i].0@)
}

/// Finds the first key of a list of pairs that stands at an earlier place
/// too.
pub fn repeated_key<T>(entries: &Vec<(String, T)>) -> (found: Option<String>)
    ensures
        optional_name(found) == first_repeat(entry_keys(entries@)),
{
    let ghost names = entry_keys(entries@);
    let mut at: usize = 0;
    while at < entries.len()
        invariant
            at <= entries.len(),
            names == entry_keys(entries@),
            forall|k: int| 0 <= k < at ==> repeats(names)[k] is None,
        decreases entries.len() - at,
    {
        let mut earlier: usize = 0;
        while earlier < at
            invariant
                earlier <= at < entries.len(),
                names == entry_keys(entries@),
                forall|k: int| 0 <= k < at ==> repeats(names)[k] is None,
                forall|k: int| 0 <= k < earlier ==> names[k] != names[at as int],
            decreases at - earlier,
        {
            if str_eq(entries[earlier].0.as_str(), entries[at].0.as_str()) {
                proof {
                    assert(names.take(at as int)[earlier as int] == names[at as int]);
                    lemma_first_some_at(repeats(names), at as int);
                }
                return Some(entries[at].0.clone());
            }
            earlier += 1;
        }
        assert(!names.take(at as int).contains(names[at as int]));
        at += 1;
    }
    proof {
        lemma_first_some_none(repeats(names));
    }
    None
}

impl ApiSchemaView {
    /// The first repeated key of each mapping of the schema: of the structs,
    /// then of the fields of each struct in order, then of the endpoints.
    pub open spec fn duplicates(self) -> Seq<Option<Seq<char>>> {
        seq![first_repeat(keys(self.structs))] + Seq::new(
            self.structs.len(),
            |i: int| first_repeat(keys(self.structs[i].1)),
        ) + seq![first_repeat(keys(self.endpoints))]
    }

    /// The first name of the schema that repeats an earlier one of its
    /// mapping.
    pub open spec fn first_duplicate(self) -> Option<Seq<char>> {
        first_some(self.duplicates())
    }

    /// No struct, no field of one struct and no endpoint is named twice.
    pub open spec fn well_formed(self) -> bool {
        &&& keys(self.structs).no_duplicates()
        &&& forall|i: int|
            0 <= i < self.structs.len() ==> (#[trigger] keys(self.structs[i].1)).no_duplicates()
        &&& keys(self.endpoints).no_duplicates()
    }
}

/// A schema is well formed if and only if none of its names repeats.
pub proof fn lemma_well_formed(schema: ApiSchemaView)
    ensures
        schema.first_duplicate() is None <==> schema.well_formed(),
{
    let findings = schema.duplicates();
    let last = (schema.structs.len() + 1) as int;
    lemma_first_repeat_none(keys(schema.structs));
    lemma_first_repeat_none(keys(schema.endpoints));
    assert(findings[0] == first_repeat(keys(schema.structs)));
    assert(findings[last] == first_repeat(keys(schema.endpoints)));
    assert forall|i: int| 0 <= i < schema.structs.len() implies (findings[i + 1] is None <==> (
        #[trigger] keys(schema.structs[i].1)).no_duplicates()) by {
        lemma_first_repeat_none(keys(schema.structs[i].1));
    }
    if schema.well_formed() {
        assert forall|k: int| 0 <= k < findings.len() implies findings[k] is None by {
            if 0 < k < last {
                assert(keys(schema.structs[k - 1].1).no_duplicates());
            }
        }
        lemma_first_some_none(findings);
    }
    if schema.first_duplicate() is None {
        lemma_first_some_place(findings);
        assert(findings[0] is None);
        assert(findings[last] is None);
        assert forall|i: int| 0 <= i < schema.structs.len() implies (#[trigger] keys(
            schema.structs[i].1,
        )).no_duplicates() by {
            assert(findings[i + 1] is None);
        }
    }
}

impl ApiSchema {
    /// Looks for a name that repeats an earlier one of its mapping: among
    /// the structs, then among the fields of each struct in order, then
    /// among the endpoints.
    pub fn duplicate_key(&self) -> (found: Option<String>)
        ensures
            optional_name(found) == self@.first_duplicate(),
    {
        let ghost findings = self@.duplicates();
        let ghost count = self.structs.len() as int;
        proof {
            assert(keys(self@.structs) == entry_keys(self.structs@));
            assert(keys(self@.endpoints) == entry_keys(self.endpoints@));
        }
        let repeated = repeated_key(&self.structs);
        if repeated.is_some() {
            proof {
                lemma_first_some_at(findings, 0);
            }
            return repeated;
        }
        let mut i: usize = 0;
        while i < self.structs.len()
            invariant
                i <= self.structs.len(),
                findings == self@.duplicates(),
                count == self.structs.len(),
                forall|k: int| 0 <= k < i + 1 ==> findings[k] is None,
            decreases self.structs.len() - i,
        {
            let repeated = repeated_key(&self.structs[i].1);
            proof {
                assert(keys(self@.structs[i as int].1) == entry_keys(self.structs@[i as int].1@));
                assert(findings[i + 1] == first_repeat(keys(self@.structs[i as int].1)));
            }
            if repeated.is_some() {
                proof {
                    lemma_first_some_at(findings, i + 1);
                }
                return repeated;
            }
            i += 1;
        }
        let repeated = repeated_key(&self.endpoints);
        proof {
            assert(findings[count + 1] == first_repeat(keys(self@.endpoints)));
            if repeated is Some {
                lemma_first_some_at(findings, count + 1);
            } else {
                lemma_first_some_none(findings);
            }
        }
        repeated
    }

    /// Makes a schema of its parts, if no name repeats; else says which name
    /// does.
    pub fn new(
        version: String,
        schema_diff: String,
        structs: Structs,
        endpoints: Endpoints,
    ) -> (made: Result<ApiSchema, Error>)
        ensures
            match made {
                Ok(schema) => {
                    &&& schema.version == version
                    &&& schema.schema_diff == schema_diff
                    &&& schema.structs == structs
                    &&& schema.endpoints == endpoints
                    &&& schema@.well_formed()
                },
                Err(error) => {
                    &&& error matches Error::DuplicateKey(name)
                    &&& Some(name@) == (ApiSchemaView {
                        version: version@,
                        schema_diff: schema_diff@,
                        structs: struct_defs_view(structs@),
                        endpoints: endpoint_defs_view(endpoints@),
                    }).first_duplicate()
                },
            },
    {
        let schema = ApiSchema { version, schema_diff, structs, endpoints };
        proof {
            lemma_well_formed(schema@);
        }
        match schema.duplicate_key() {
            Some(name) => Err(Error::DuplicateKey(name)),
            None => Ok(schema),
        }
    }
}

} // verus!
