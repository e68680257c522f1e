//! Profile-defined metadata filter DSL.
//!
//! The filter narrows retrieval candidates before scoring. `where` clauses
//! are combined with AND, and so are the field predicates inside a clause.
//! Field names must be declared filterable by the profile metadata schema.
use vstd::prelude::*;
use crate::error::AppError;
use crate::json::{
    as_array, as_bool, as_object, as_str, clone_json, contains_value, entry_models, get_member, is_null,
    json_equal, json_get, keys_ascending, models, push_array_text, push_json_text, serde_json_text,
    texts_ascending, Json, JsonEntry,
    JsonValue,
};
use crate::text::{push_str, str_eq, text_less, text_lt, text_lt_total, text_lt_transitive};

verus! {

/// At most this many `where` clauses.
pub const MAX_FILTER_CLAUSES: usize = 16;

/// At most this many field predicates over all clauses.
pub const MAX_FILTER_FIELDS: usize = 32;

/// At most this many values in an `in` operator.
pub const MAX_IN_VALUES: usize = 64;

/// Metadata filter passed by callers after reading the profile schema.
pub struct MetadataFilter {
    pub clauses: Vec<MetadataFilterClause>,
}

/// One AND clause: field predicates in ascending field order, each field
/// once (see `well_formed`).
pub struct MetadataFilterClause(pub Vec<(String, MetadataFilterPredicate)>);

/// Predicate for one metadata field.
pub enum MetadataFilterPredicate {
    Operators(MetadataFilterOperators),
    Eq(JsonValue),
}

/// Supported metadata field operators.
pub struct MetadataFilterOperators {
    pub eq: Option<JsonValue>,
    pub ne: Option<JsonValue>,
    pub in_values: Option<Vec<JsonValue>>,
    pub exists: Option<bool>,
}

/// The model of a set of operators.
pub struct OperatorsModel {
    pub eq: Option<Json>,
    pub ne: Option<Json>,
    pub in_values: Option<Seq<Json>>,
    pub exists: Option<bool>,
}

/// The model of a predicate.
pub enum PredicateModel {
    Operators(OperatorsModel),
    Eq(Json),
}

/// The model of an optional value.
pub open spec fn opt_model(o: Option<JsonValue>) -> Option<Json> {
    match o {
        Some(v) => Some(v.model()),
        None => None,
    }
}

impl MetadataFilterOperators {
    pub open spec fn model(&self) -> OperatorsModel {
        OperatorsModel {
            eq: opt_model(self.eq),
            ne: opt_model(self.ne),
            in_values: match self.in_values {
                Some(vs) => Some(models(vs@)),
                None => None,
            },
            exists: self.exists,
        }
    }
}

impl MetadataFilterPredicate {
    pub open spec fn model(&self) -> PredicateModel {
        match self {
            MetadataFilterPredicate::Operators(o) => PredicateModel::Operators(o.model()),
            MetadataFilterPredicate::Eq(v) => PredicateModel::Eq(v.model()),
        }
    }
}

impl MetadataFilterClause {
    pub open spec fn model(&self) -> Seq<(Seq<char>, PredicateModel)> {
        Seq::new(self.0@.len(), |i: int| (self.0@[i].0@, self.0@[i].1.model()))
    }

    /// The field names of the clause, in their order.
    pub open spec fn fields(&self) -> Seq<Seq<char>> {
        self.0@.map_values(|p: (String, MetadataFilterPredicate)| p.0@)
    }

    /// The invariant of a clause: field names in strictly ascending order,
    /// so each field is named once.
    pub open spec fn well_formed(&self) -> bool {
        keys_ascending(self.fields())
    }

    /// Whether the clause meets its invariant.
    pub fn is_well_formed(&self) -> (r: bool)
        ensures
            r == self.well_formed(),
    {
        let mut keys: Vec<&str> = Vec::new();
        let mut i: usize = 0;
        while i < self.0.len()
            invariant
                i <= self.0@.len(),
                keys@.len() == i,
                forall|k: int| 0 <= k < i ==> (#[trigger] keys@[k])@ == self.0@[k].0@,
            decreases self.0.len() - i,
        {
            keys.push(self.0[i].0.as_str());
            i += 1;
        }
        assert(keys@.map_values(|k: &str| k@) =~= self.fields());
        texts_ascending(&keys)
    }
}

impl MetadataFilter {
    pub open spec fn model(&self) -> Seq<Seq<(Seq<char>, PredicateModel)>> {
        Seq::new(self.clauses@.len(), |i: int| self.clauses@[i].model())
    }
}

// ----------------------------------------------------------------------------
// Matching
// ----------------------------------------------------------------------------

/// The pieces of `s` between occurrences of `sep` (`str::split`).
pub open spec fn split_on(s: Seq<char>, sep: char) -> Seq<Seq<char>>
    decreases s.len(),
{
    if s.len() == 0 {
        seq![Seq::empty()]
    } else {
        let prev = split_on(s.drop_last(), sep);
        if s.last() == sep {
            prev.push(Seq::empty())
        } else {
            prev.update(prev.len() - 1, prev.last().push(s.last()))
        }
    }
}

/// Walking member lookups along a path from `root`.
pub open spec fn walk(root: Json, parts: Seq<Seq<char>>) -> Option<Json>
    decreases parts.len(),
{
    if parts.len() == 0 {
        Some(root)
    } else {
        match walk(root, parts.drop_last()) {
            Some(cur) => json_get(cur, parts.last()),
            None => None,
        }
    }
}

/// The metadata value a field names: the member with that exact name, or
/// else the value reached by following the dot-separated path.
pub open spec fn lookup(metadata: Json, field: Seq<char>) -> Option<Json> {
    if !(metadata is Object) {
        None
    } else if json_get(metadata, field) is Some {
        json_get(metadata, field)
    } else {
        walk(metadata, split_on(field, '.'))
    }
}

/// Equality of an actual value with an expected one; an array matches when
/// one of its elements equals the expected value.
pub open spec fn value_eq(actual: Json, expected: Json) -> bool {
    match actual {
        Json::Array(vs) => vs.contains(expected),
        _ => actual == expected,
    }
}

/// Membership of an actual value in expected values; an array matches when
/// one of its elements is among them.
pub open spec fn value_in(actual: Json, expected: Seq<Json>) -> bool {
    match actual {
        Json::Array(vs) => exists|i: int| 0 <= i < vs.len() && expected.contains(#[trigger] vs[i]),
        _ => expected.contains(actual),
    }
}

/// A metadata array meets `eq`, or a bare expected value, exactly when one
/// of its elements equals the expected value, and `ne` exactly when none
/// does, and `in` exactly when one of its elements is among the expected
/// values; a value that is not an array is compared whole.
pub proof fn array_values_match_by_element(vs: Seq<Json>, a: Json, x: Json)
    ensures
        predicate_match(PredicateModel::Eq(x), Some(Json::Array(vs))) <==> (exists|i: int|
            0 <= i < vs.len() && vs[i] == x),
        predicate_match(
            PredicateModel::Operators(OperatorsModel { eq: Some(x), ne: None, in_values: None, exists: None }),
            Some(Json::Array(vs)),
        ) <==> (exists|i: int| 0 <= i < vs.len() && vs[i] == x),
        predicate_match(
            PredicateModel::Operators(OperatorsModel { eq: None, ne: Some(x), in_values: None, exists: None }),
            Some(Json::Array(vs)),
        ) <==> (forall|i: int| 0 <= i < vs.len() ==> vs[i] != x),
        !(a is Array) ==> (predicate_match(PredicateModel::Eq(x), Some(a)) <==> a == x),
        forall|xs: Seq<Json>|
            #[trigger] predicate_match(
                PredicateModel::Operators(OperatorsModel { eq: None, ne: None, in_values: Some(xs), exists: None }),
                Some(Json::Array(vs)),
            ) <==> (exists|i: int, k: int| 0 <= i < vs.len() && 0 <= k < xs.len() && vs[i] == xs[k]),
{
    assert forall|xs: Seq<Json>|
        #[trigger] predicate_match(
            PredicateModel::Operators(OperatorsModel { eq: None, ne: None, in_values: Some(xs), exists: None }),
            Some(Json::Array(vs)),
        ) <==> (exists|i: int, k: int| 0 <= i < vs.len() && 0 <= k < xs.len() && vs[i] == xs[k]) by {
        if exists|i: int, k: int| 0 <= i < vs.len() && 0 <= k < xs.len() && vs[i] == xs[k] {
            let ik = choose|i: int, k: int| 0 <= i < vs.len() && 0 <= k < xs.len() && vs[i] == xs[k];
            let i = ik.0;
            let k = ik.1;
            assert(0 <= i < vs.len() && 0 <= k < xs.len() && vs[i] == xs[k]);
            let a = Json::Array(vs);
            assert(a->Array_0 == vs);
            assert(xs.contains(a->Array_0[i]));
            assert(value_in(a, xs));
        }
        if exists|i: int| 0 <= i < vs.len() && xs.contains(#[trigger] vs[i]) {
            let i = choose|i: int| 0 <= i < vs.len() && xs.contains(#[trigger] vs[i]);
            let k = choose|k: int| 0 <= k < xs.len() && xs[k] == vs[i];
            assert(vs[i] == xs[k]);
            assert(exists|i: int, k: int| 0 <= i < vs.len() && 0 <= k < xs.len() && vs[i] == xs[k]);
        }
    }
    if exists|i: int| 0 <= i < vs.len() && vs[i] == x {
        let i = choose|i: int| 0 <= i < vs.len() && vs[i] == x;
        assert(vs.contains(x));
    }
    if vs.contains(x) {
        let i = choose|i: int| 0 <= i < vs.len() && vs[i] == x;
        assert(vs[i] == x);
    }
}

/// Whether operators hold of an actual value (absent when `None`).
pub open spec fn operators_match(o: OperatorsModel, actual: Option<Json>) -> bool {
    &&& (o.exists matches Some(e) ==> (actual matches Some(a) && !(a is Null)) == e)
    &&& (o.eq matches Some(x) ==> (actual matches Some(a) && value_eq(a, x)))
    &&& (o.ne matches Some(x) ==> (actual matches Some(a) && !value_eq(a, x)))
    &&& (o.in_values matches Some(xs) ==> (actual matches Some(a) && value_in(a, xs)))
}

/// Whether a predicate holds of an actual value.
pub open spec fn predicate_match(p: PredicateModel, actual: Option<Json>) -> bool {
    match p {
        PredicateModel::Eq(x) => actual matches Some(a) && value_eq(a, x),
        PredicateModel::Operators(o) => operators_match(o, actual),
    }
}

/// Whether every predicate of a clause holds of the metadata.
pub open spec fn clause_matches(c: Seq<(Seq<char>, PredicateModel)>, metadata: Json) -> bool {
    forall|k: int| 0 <= k < c.len() ==> predicate_match(#[trigger] c[k].1, lookup(metadata, c[k].0))
}

/// Whether a filter holds of a memory's metadata.
pub open spec fn filter_matches(f: Seq<Seq<(Seq<char>, PredicateModel)>>, metadata: Json) -> bool {
    forall|k: int| 0 <= k < f.len() ==> clause_matches(#[trigger] f[k], metadata)
}

/// Clauses are conjoined: the empty filter holds of all metadata, adding a
/// clause keeps exactly the metadata that also meet that clause, and a
/// filter never holds where one of its clauses fails.
pub proof fn filter_clauses_conjoin(
    f: Seq<Seq<(Seq<char>, PredicateModel)>>,
    c: Seq<(Seq<char>, PredicateModel)>,
    metadata: Json,
)
    ensures
        filter_matches(Seq::empty(), metadata),
        filter_matches(f.push(c), metadata) == (filter_matches(f, metadata) && clause_matches(
            c,
            metadata,
        )),
        forall|k: int|
            0 <= k < f.len() && !clause_matches(#[trigger] f[k], metadata) ==> !filter_matches(
                f,
                metadata,
            ),
{
    let g = f.push(c);
    assert(g[f.len() as int] == c);
    assert forall|k: int| 0 <= k < f.len() implies g[k] == f[k] by {}
    if filter_matches(f, metadata) && clause_matches(c, metadata) {
        assert forall|k: int| 0 <= k < g.len() implies clause_matches(#[trigger] g[k], metadata) by {
            if k < f.len() {
                assert(g[k] == f[k]);
            }
        }
    }
    if filter_matches(g, metadata) {
        assert(clause_matches(g[f.len() as int], metadata));
        assert forall|k: int| 0 <= k < f.len() implies clause_matches(#[trigger] f[k], metadata) by {
            assert(clause_matches(g[k], metadata));
        }
    }
}

/// The pieces of a field name between dots.
pub fn split_dots(s: &str) -> (r: Vec<Vec<char>>)
    ensures
        r@.len() == split_on(s@, '.').len(),
        forall|i: int| 0 <= i < r@.len() ==> (#[trigger] r@[i])@ == split_on(s@, '.')[i],
{
    let cs = crate::text::chars_of(s);
    let mut parts: Vec<Vec<char>> = Vec::new();
    parts.push(Vec::new());
    let mut i: usize = 0;
    while i < cs.len()
        invariant
            cs@ == s@,
            i <= cs.len(),
            parts@.len() == split_on(s@.take(i as int), '.').len(),
            parts@.len() >= 1,
            forall|k: int|
                0 <= k < parts@.len() ==> (#[trigger] parts@[k])@ == split_on(
                    s@.take(i as int),
                    '.',
                )[k],
        decreases cs.len() - i,
    {
        let ghost prev = split_on(s@.take(i as int), '.');
        assert(s@.take(i as int + 1).drop_last() =~= s@.take(i as int));
        assert(s@.take(i as int + 1).last() == cs@[i as int]);
        if cs[i] == '.' {
            parts.push(Vec::new());
        } else {
            let last = parts.len() - 1;
            let mut piece = parts.pop().unwrap();
            piece.push(cs[i]);
            parts.push(piece);
            proof {
                assert(parts@.len() == prev.len());
            }
        }
        i += 1;
        proof {
            let cur = split_on(s@.take(i as int), '.');
            assert(parts@.len() == cur.len());
            assert forall|k: int| 0 <= k < parts@.len() implies (#[trigger] parts@[k])@ == cur[k] by {
                if k < parts@.len() - 1 {
                    assert(cur[k] == prev[k]);
                }
            }
        }
    }
    assert(s@.take(cs.len() as int) =~= s@);
    parts
}

/// The characters of a piece as a string slice lookup key.
fn piece_string(piece: &Vec<char>) -> (r: String)
    ensures
        r@ == piece@,
{
    crate::text::string_of_chars(piece)
}

/// Looks up the metadata value a field names.
pub fn lookup_metadata_value<'a>(metadata: &'a JsonValue, field: &str) -> (r: Option<&'a JsonValue>)
    ensures
        r is Some <==> lookup(metadata.model(), field@) is Some,
        r matches Some(x) ==> Some(x.model()) == lookup(metadata.model(), field@),
{
    if as_object(metadata).is_none() {
        return None;
    }
    let direct = get_member(metadata, field);
    if direct.is_some() {
        return direct;
    }
    let parts = split_dots(field);
    let ghost ps = split_on(field@, '.');
    let mut current: &JsonValue = metadata;
    let mut i: usize = 0;
    while i < parts.len()
        invariant
            i <= parts@.len(),
            parts@.len() == ps.len(),
            forall|k: int| 0 <= k < parts@.len() ==> (#[trigger] parts@[k])@ == ps[k],
            walk(metadata.model(), ps.take(i as int)) == Some(current.model()),
            metadata.model() is Object,
            json_get(metadata.model(), field@) is None,
            ps == split_on(field@, '.'),
        decreases parts.len() - i,
    {
        let key = piece_string(&parts[i]);
        assert(ps.take(i as int + 1).drop_last() =~= ps.take(i as int));
        match get_member(current, key.as_str()) {
            Some(next) => {
                current = next;
            },
            None => {
                proof {
                    assert(ps.take(i as int + 1).last() == ps[i as int]);
                    assert(walk(metadata.model(), ps.take(i as int + 1)) is None);
                    lemma_walk_none_extends(metadata.model(), ps, i as int + 1);
                    assert(ps.take(ps.len() as int) =~= ps);
                }
                return None;
            },
        }
        i += 1;
    }
    assert(ps.take(parts.len() as int) =~= ps);
    Some(current)
}

/// Once a walk fails it fails for every longer path.
proof fn lemma_walk_none_extends(root: Json, ps: Seq<Seq<char>>, k: int)
    requires
        0 <= k <= ps.len(),
        walk(root, ps.take(k)) is None,
    ensures
        walk(root, ps.take(ps.len() as int)) is None,
    decreases ps.len() - k,
{
    if k < ps.len() {
        assert(ps.take(k + 1).drop_last() =~= ps.take(k));
        lemma_walk_none_extends(root, ps, k + 1);
    }
}

/// Equality of an actual value with an expected one (arrays by membership).
pub fn metadata_value_eq(actual: &JsonValue, expected: &JsonValue) -> (r: bool)
    ensures
        r == value_eq(actual.model(), expected.model()),
{
    match as_array(actual) {
        Some(values) => contains_value(values, expected),
        None => json_equal(actual, expected),
    }
}

/// Membership of an actual value among expected values (arrays by overlap).
pub fn metadata_value_in(actual: &JsonValue, expected_values: &Vec<JsonValue>) -> (r: bool)
    ensures
        r == value_in(actual.model(), models(expected_values@)),
{
    match as_array(actual) {
        Some(values) => {
            let ghost vs = models(values@);
            let mut i: usize = 0;
            while i < values.len()
                invariant
                    i <= values.len(),
                    vs == models(values@),
                    actual.model() == Json::Array(vs),
                    forall|k: int| 0 <= k < i ==> !models(expected_values@).contains(#[trigger] vs[k]),
                decreases values.len() - i,
            {
                if contains_value(expected_values, &values[i]) {
                    assert(vs[i as int] == values@[i as int].model());
                    assert(models(expected_values@).contains(vs[i as int]));
                    assert(models(expected_values@).contains(actual.model()->Array_0[i as int]));
                    assert(value_in(actual.model(), models(expected_values@)));
                    return true;
                }
                i += 1;
            }
            false
        },
        None => contains_value(expected_values, actual),
    }
}

impl MetadataFilterOperators {
    /// Whether all present operators hold of the actual value.
    pub fn matches(&self, actual: Option<&JsonValue>) -> (r: bool)
        ensures
            r == operators_match(
                self.model(),
                match actual {
                    Some(a) => Some(a.model()),
                    None => None,
                },
            ),
    {
        if let Some(exists) = self.exists {
            let actual_exists = match actual {
                Some(value) => !is_null(value),
                None => false,
            };
            if actual_exists != exists {
                return false;
            }
        }
        if let Some(expected) = &self.eq {
            let ok = match actual {
                Some(a) => metadata_value_eq(a, expected),
                None => false,
            };
            if !ok {
                return false;
            }
        }
        if let Some(expected) = &self.ne {
            let ok = match actual {
                Some(a) => !metadata_value_eq(a, expected),
                None => false,
            };
            if !ok {
                return false;
            }
        }
        if let Some(values) = &self.in_values {
            let ok = match actual {
                Some(a) => metadata_value_in(a, values),
                None => false,
            };
            if !ok {
                return false;
            }
        }
        true
    }
}

impl MetadataFilterPredicate {
    /// Whether the predicate holds of the actual value.
    pub fn matches(&self, actual: Option<&JsonValue>) -> (r: bool)
        ensures
            r == predicate_match(
                self.model(),
                match actual {
                    Some(a) => Some(a.model()),
                    None => None,
                },
            ),
    {
        match self {
            MetadataFilterPredicate::Eq(expected) => match actual {
                Some(a) => metadata_value_eq(a, expected),
                None => false,
            },
            MetadataFilterPredicate::Operators(operators) => operators.matches(actual),
        }
    }
}

impl MetadataFilter {
    /// Whether the filter has no clause.
    pub fn is_empty(&self) -> (r: bool)
        ensures
            r == (self.clauses@.len() == 0),
    {
        self.clauses.len() == 0
    }

    /// Whether every clause holds of the metadata.
    pub fn matches(&self, metadata: &JsonValue) -> (r: bool)
        ensures
            r == filter_matches(self.model(), metadata.model()),
    {
        let mut c: usize = 0;
        while c < self.clauses.len()
            invariant
                c <= self.clauses@.len(),
                forall|k: int| 0 <= k < c ==> clause_matches(#[trigger] self.model()[k], metadata.model()),
            decreases self.clauses.len() - c,
        {
            let clause = &self.clauses[c].0;
            let ghost cm = self.model()[c as int];
            assert(cm == self.clauses@[c as int].model());
            let mut k: usize = 0;
            while k < clause.len()
                invariant
                    k <= clause@.len(),
                    clause == &self.clauses@[c as int].0,
                    c < self.clauses@.len(),
                    cm == self.model()[c as int],
                    cm == self.clauses@[c as int].model(),
                    forall|j: int| 0 <= j < k ==> predicate_match(#[trigger] cm[j].1, lookup(metadata.model(), cm[j].0)),
                decreases clause.len() - k,
            {
                let actual = lookup_metadata_value(metadata, clause[k].0.as_str());
                if !clause[k].1.matches(actual) {
                    assert(cm[k as int] == (clause@[k as int].0@, clause@[k as int].1.model()));
                    assert(!predicate_match(cm[k as int].1, lookup(metadata.model(), cm[k as int].0)));
                    assert(!clause_matches(cm, metadata.model()));
                    assert(!clause_matches(self.model()[c as int], metadata.model()));
                    assert(!filter_matches(self.model(), metadata.model()));
                    return false;
                }
                assert(cm[k as int] == (clause@[k as int].0@, clause@[k as int].1.model()));
                k += 1;
            }
            assert(clause_matches(cm, metadata.model()));
            c += 1;
        }
        true
    }
}


// ----------------------------------------------------------------------------
// Schema reading
// ----------------------------------------------------------------------------

/// The values listed under `filterable_fields`.
#[verifier::opaque]
pub open spec fn listed_fields(schema: Json) -> Seq<Json> {
    match json_get(schema, "filterable_fields"@) {
        Some(Json::Array(vs)) => vs,
        _ => Seq::empty(),
    }
}

/// The entries of the `entity_types` object.
#[verifier::opaque]
pub open spec fn entity_list(schema: Json) -> Seq<(Seq<char>, Json)> {
    match json_get(schema, "entity_types"@) {
        Some(Json::Object(es)) => es,
        _ => Seq::empty(),
    }
}

/// The entries of an entity's `fields` object.
#[verifier::opaque]
pub open spec fn fields_of(entity: Json) -> Seq<(Seq<char>, Json)> {
    match json_get(entity, "fields"@) {
        Some(Json::Object(fs)) => fs,
        _ => Seq::empty(),
    }
}

/// The field entries of the given entities, entity after entity.
pub open spec fn field_entries(entities: Seq<(Seq<char>, Json)>) -> Seq<(Seq<char>, Json)>
    decreases entities.len(),
{
    if entities.len() == 0 {
        Seq::empty()
    } else {
        field_entries(entities.drop_last()) + fields_of(entities.last().1)
    }
}

/// Every field entry of the schema's entity types, in walking order.
pub open spec fn schema_field_entries(schema: Json) -> Seq<(Seq<char>, Json)> {
    field_entries(entity_list(schema))
}

/// Whether a field schema is marked `"filterable": true`.
#[verifier::opaque]
pub open spec fn is_filterable(field_schema: Json) -> bool {
    json_get(field_schema, "filterable"@) == Some(Json::Bool(true))
}

/// The fields a schema declares filterable: the strings listed under
/// `filterable_fields`, and the entity fields marked filterable.
pub open spec fn filterable_fields(schema: Json) -> Set<Seq<char>> {
    Set::new(
        |f: Seq<char>|
            (exists|i: int| 0 <= i < listed_fields(schema).len() && listed_fields(schema)[i] == Json::Str(f))
            || (exists|k: int|
                0 <= k < schema_field_entries(schema).len() && schema_field_entries(schema)[k].0 == f
                    && is_filterable(schema_field_entries(schema)[k].1)),
    )
}

proof fn lemma_field_entries_hold(entities: Seq<(Seq<char>, Json)>, e: int, i: int)
    requires
        0 <= e < entities.len(),
        0 <= i < fields_of(entities[e].1).len(),
    ensures
        exists|k: int|
            0 <= k < field_entries(entities).len() && field_entries(entities)[k] == fields_of(
                entities[e].1,
            )[i],
    decreases entities.len(),
{
    let d = entities.drop_last();
    let a = field_entries(d);
    let b = fields_of(entities.last().1);
    assert(field_entries(entities) == a + b);
    if e < entities.len() - 1 {
        assert(d[e] == entities[e]);
        lemma_field_entries_hold(d, e, i);
        let k = choose|k: int| 0 <= k < a.len() && a[k] == fields_of(d[e].1)[i];
        assert((a + b)[k] == a[k]);
    } else {
        assert((a + b)[a.len() + i] == b[i]);
    }
}

/// The fields a schema declares filterable include every string listed
/// under `filterable_fields` and every field that some entity type's
/// `fields` object marks `"filterable": true`; so such a schema never has
/// an empty set of filterable fields.
pub proof fn declared_fields_are_filterable(schema: Json)
    ensures
        forall|vs: Seq<Json>, i: int|
            json_get(schema, "filterable_fields"@) == Some(Json::Array(vs)) && 0 <= i < vs.len() && (
            #[trigger] vs[i]) is Str ==> filterable_fields(schema).contains(vs[i]->Str_0)
                && !filterable_fields(schema).is_empty(),
        forall|es: Seq<(Seq<char>, Json)>, e: int, fs: Seq<(Seq<char>, Json)>, i: int|
            json_get(schema, "entity_types"@) == Some(Json::Object(es)) && 0 <= e < es.len()
                && json_get(#[trigger] es[e].1, "fields"@) == Some(Json::Object(fs)) && 0 <= i < fs.len()
                && json_get(#[trigger] fs[i].1, "filterable"@) == Some(Json::Bool(true))
                ==> filterable_fields(schema).contains(fs[i].0) && !filterable_fields(schema).is_empty(),
{
    reveal(entity_list);
    reveal(fields_of);
    reveal(is_filterable);
    reveal(listed_fields);
    assert forall|vs: Seq<Json>, i: int|
        json_get(schema, "filterable_fields"@) == Some(Json::Array(vs)) && 0 <= i < vs.len() && (
        #[trigger] vs[i]) is Str implies filterable_fields(schema).contains(vs[i]->Str_0)
            && !filterable_fields(schema).is_empty() by {
        assert(listed_fields(schema) == vs);
        assert(vs[i] == Json::Str(vs[i]->Str_0));
        assert(filterable_fields(schema).contains(vs[i]->Str_0));
    }
    assert forall|es: Seq<(Seq<char>, Json)>, e: int, fs: Seq<(Seq<char>, Json)>, i: int|
        json_get(schema, "entity_types"@) == Some(Json::Object(es)) && 0 <= e < es.len()
            && json_get(#[trigger] es[e].1, "fields"@) == Some(Json::Object(fs)) && 0 <= i < fs.len()
            && json_get(#[trigger] fs[i].1, "filterable"@) == Some(Json::Bool(true)) implies filterable_fields(
        schema,
    ).contains(fs[i].0) && !filterable_fields(schema).is_empty() by {
        assert(entity_list(schema) == es);
        assert(fields_of(es[e].1) == fs);
        lemma_field_entries_hold(es, e, i);
        let k = choose|k: int|
            0 <= k < field_entries(es).len() && field_entries(es)[k] == fields_of(es[e].1)[i];
        assert(schema_field_entries(schema)[k] == fs[i]);
        assert(is_filterable(fs[i].1));
        assert(filterable_fields(schema).contains(fs[i].0));
    }
}

/// Whether a list of names holds the given name.
pub open spec fn names_contain(names: Seq<String>, f: Seq<char>) -> bool {
    exists|i: int| 0 <= i < names.len() && (#[trigger] names[i])@ == f
}

/// The set of names in a list.
pub open spec fn name_set(names: Seq<String>) -> Set<Seq<char>> {
    Set::new(|f: Seq<char>| names_contain(names, f))
}

/// The strings among a list of JSON values.
pub open spec fn string_set(values: Seq<Json>) -> Set<Seq<char>> {
    Set::new(|f: Seq<char>| exists|i: int| 0 <= i < values.len() && values[i] == Json::Str(f))
}

/// The names of the field entries marked filterable.
pub open spec fn filterable_names(entries: Seq<(Seq<char>, Json)>) -> Set<Seq<char>> {
    Set::new(
        |f: Seq<char>|
            exists|k: int| 0 <= k < entries.len() && entries[k].0 == f && is_filterable(entries[k].1),
    )
}

/// Whether a field schema is marked filterable.
fn field_is_filterable(field_schema: &JsonValue) -> (r: bool)
    ensures
        r == is_filterable(field_schema.model()),
{
    reveal(is_filterable);
    match get_member(field_schema, "filterable") {
        Some(v) => match as_bool(v) {
            Some(b) => b,
            None => false,
        },
        None => false,
    }
}

/// The entries of an entity's `fields` object, when it has one.
fn entity_fields(entity: &JsonValue) -> (r: Option<&Vec<JsonEntry>>)
    ensures
        r is Some ==> entry_models(r->0@) == fields_of(entity.model()),
        r is None ==> fields_of(entity.model()) == Seq::<(Seq<char>, Json)>::empty(),
{
    reveal(fields_of);
    match get_member(entity, "fields") {
        Some(f) => as_object(f),
        None => None,
    }
}

/// The entries of the schema's `entity_types` object, when it has one.
fn schema_entities(schema: &JsonValue) -> (r: Option<&Vec<JsonEntry>>)
    ensures
        r is Some ==> entry_models(r->0@) == entity_list(schema.model()),
        r is None ==> entity_list(schema.model()) == Seq::<(Seq<char>, Json)>::empty(),
{
    reveal(entity_list);
    match get_member(schema, "entity_types") {
        Some(e) => as_object(e),
        None => None,
    }
}

/// The values listed under `filterable_fields`, when they are an array.
fn schema_listed(schema: &JsonValue) -> (r: Option<&Vec<JsonValue>>)
    ensures
        r is Some ==> models(r->0@) == listed_fields(schema.model()),
        r is None ==> listed_fields(schema.model()) == Seq::<Json>::empty(),
{
    reveal(listed_fields);
    match get_member(schema, "filterable_fields") {
        Some(l) => as_array(l),
        None => None,
    }
}

/// One step of walking the entities: the entries so far plus one entity's.
proof fn lemma_field_entries_step(entities: Seq<(Seq<char>, Json)>, e: int)
    requires
        0 <= e < entities.len(),
    ensures
        field_entries(entities.take(e + 1)) == field_entries(entities.take(e)) + fields_of(
            entities[e].1,
        ),
{
    assert(entities.take(e + 1).drop_last() =~= entities.take(e));
}

/// The filterable names of joined entry lists.
proof fn lemma_filterable_names_concat(a: Seq<(Seq<char>, Json)>, b: Seq<(Seq<char>, Json)>)
    ensures
        filterable_names(a + b) == filterable_names(a).union(filterable_names(b)),
{
    let ab = a + b;
    assert forall|f: Seq<char>| filterable_names(ab).contains(f) <==> filterable_names(a).union(
        filterable_names(b),
    ).contains(f) by {
        if filterable_names(ab).contains(f) {
            let k = choose|k: int| 0 <= k < ab.len() && ab[k].0 == f && is_filterable(ab[k].1);
            if k < a.len() {
                assert(ab[k] == a[k]);
            } else {
                assert(ab[k] == b[k - a.len()]);
            }
        }
        if filterable_names(a).contains(f) {
            let k = choose|k: int| 0 <= k < a.len() && a[k].0 == f && is_filterable(a[k].1);
            assert(ab[k] == a[k]);
        }
        if filterable_names(b).contains(f) {
            let k = choose|k: int| 0 <= k < b.len() && b[k].0 == f && is_filterable(b[k].1);
            assert(ab[k + a.len()] == b[k]);
        }
    }
    assert(filterable_names(ab) =~= filterable_names(a).union(filterable_names(b)));
}

/// Appends the strings among the given values.
fn collect_listed(out: &mut Vec<String>, values: &Vec<JsonValue>)
    ensures
        name_set(final(out)@) == name_set(old(out)@).union(string_set(models(values@))),
{
    let ghost vs = models(values@);
    let mut i: usize = 0;
    while i < values.len()
        invariant
            i <= values.len(),
            vs == models(values@),
            name_set(out@) == name_set(old(out)@).union(string_set(vs.take(i as int))),
        decreases values.len() - i,
    {
        let ghost before = out@;
        match as_str(&values[i]) {
            Some(name) => {
                out.push(name.clone());
            },
            None => {},
        }
        proof {
            let t0 = vs.take(i as int);
            let t1 = vs.take(i as int + 1);
            assert forall|f: Seq<char>| name_set(out@).contains(f) <==> name_set(old(out)@).union(
                string_set(t1),
            ).contains(f) by {
                if names_contain(out@, f) {
                    let q = choose|q: int| 0 <= q < out@.len() && (#[trigger] out@[q])@ == f;
                    if q < before.len() {
                        assert(names_contain(before, f));
                        assert(name_set(before).contains(f));
                        if string_set(t0).contains(f) {
                            let j = choose|j: int| 0 <= j < t0.len() && t0[j] == Json::Str(f);
                            assert(t1[j] == t0[j]);
                        }
                    } else {
                        assert(t1[i as int] == Json::Str(f));
                    }
                }
                if name_set(old(out)@).contains(f) || string_set(t0).contains(f) {
                    assert(name_set(before).contains(f));
                    let q = choose|q: int| 0 <= q < before.len() && (#[trigger] before[q])@ == f;
                    assert(out@[q] == before[q]);
                }
                if string_set(t1).contains(f) {
                    let j = choose|j: int| 0 <= j < t1.len() && t1[j] == Json::Str(f);
                    if j < i {
                        assert(t0[j] == t1[j]);
                        assert(name_set(before).contains(f));
                        let q = choose|q: int| 0 <= q < before.len() && (#[trigger] before[q])@ == f;
                        assert(out@[q] == before[q]);
                    } else {
                        assert(out@[out@.len() - 1]@ == f);
                    }
                }
            }
            assert(name_set(out@) =~= name_set(old(out)@).union(string_set(t1)));
        }
        i += 1;
    }
    assert(vs.take(values.len() as int) =~= vs);
}

/// Appends the names of the entries marked filterable.
fn collect_filterable(out: &mut Vec<String>, entries: &Vec<JsonEntry>)
    ensures
        name_set(final(out)@) == name_set(old(out)@).union(filterable_names(entry_models(entries@))),
{
    let ghost es = entry_models(entries@);
    let mut k: usize = 0;
    while k < entries.len()
        invariant
            k <= entries.len(),
            es == entry_models(entries@),
            name_set(out@) == name_set(old(out)@).union(filterable_names(es.take(k as int))),
        decreases entries.len() - k,
    {
        let ghost before = out@;
        assert(es[k as int] == (entries@[k as int].key@, entries@[k as int].value.model()));
        if field_is_filterable(&entries[k].value) {
            out.push(entries[k].key.clone());
        }
        proof {
            let t0 = es.take(k as int);
            let t1 = es.take(k as int + 1);
            assert forall|f: Seq<char>| name_set(out@).contains(f) <==> name_set(old(out)@).union(
                filterable_names(t1),
            ).contains(f) by {
                if names_contain(out@, f) {
                    let q = choose|q: int| 0 <= q < out@.len() && (#[trigger] out@[q])@ == f;
                    if q < before.len() {
                        assert(names_contain(before, f));
                        assert(name_set(before).contains(f));
                        if filterable_names(t0).contains(f) {
                            let j = choose|j: int| 0 <= j < t0.len() && t0[j].0 == f && is_filterable(t0[j].1);
                            assert(t1[j] == t0[j]);
                        }
                    } else {
                        assert(t1[k as int] == es[k as int]);
                    }
                }
                if name_set(old(out)@).contains(f) || filterable_names(t0).contains(f) {
                    assert(name_set(before).contains(f));
                    let q = choose|q: int| 0 <= q < before.len() && (#[trigger] before[q])@ == f;
                    assert(out@[q] == before[q]);
                }
                if filterable_names(t1).contains(f) {
                    let j = choose|j: int| 0 <= j < t1.len() && t1[j].0 == f && is_filterable(t1[j].1);
                    if j < k {
                        assert(t0[j] == t1[j]);
                        assert(name_set(before).contains(f));
                        let q = choose|q: int| 0 <= q < before.len() && (#[trigger] before[q])@ == f;
                        assert(out@[q] == before[q]);
                    } else {
                        assert(out@[out@.len() - 1]@ == f);
                    }
                }
            }
            assert(name_set(out@) =~= name_set(old(out)@).union(filterable_names(t1)));
        }
        k += 1;
    }
    assert(es.take(entries.len() as int) =~= es);
}

/// Whether the names run in strictly increasing order, so none repeats.
pub open spec fn strictly_sorted(names: Seq<String>) -> bool {
    forall|i: int, j: int|
        0 <= i < j < names.len() ==> text_lt(#[trigger] names[i]@, #[trigger] names[j]@)
}

/// Inserts a name into a strictly sorted list unless it is there already.
fn insert_sorted(out: &mut Vec<String>, x: String)
    requires
        strictly_sorted(old(out)@),
    ensures
        strictly_sorted(final(out)@),
        name_set(final(out)@) == name_set(old(out)@).insert(x@),
{
    let mut p: usize = 0;
    while p < out.len() && text_less(out[p].as_str(), x.as_str())
        invariant
            p <= out@.len(),
            forall|k: int| 0 <= k < p ==> text_lt((#[trigger] out@[k])@, x@),
        decreases out.len() - p,
    {
        p += 1;
    }
    if p < out.len() && str_eq(out[p].as_str(), x.as_str()) {
        proof {
            assert(name_set(out@) =~= name_set(out@).insert(x@)) by {
                assert(names_contain(out@, x@)) by {
                    assert(out@[p as int]@ == x@);
                }
            }
        }
        return;
    }
    let ghost before = out@;
    proof {
        if p < before.len() {
            text_lt_total(before[p as int]@, x@);
        }
    }
    out.insert(p, x);
    proof {
        let after = out@;
        assert(after.len() == before.len() + 1);
        assert forall|k: int| 0 <= k < p implies after[k] == before[k] by {}
        assert forall|k: int| p < k < after.len() implies after[k] == before[k - 1] by {}
        assert forall|i: int, j: int| 0 <= i < j < after.len() implies text_lt(
            (#[trigger] after[i])@,
            (#[trigger] after[j])@,
        ) by {
            if j < p {
            } else if j == p {
            } else if i < p {
                if j - 1 >= p {
                    assert(text_lt(before[i]@, before[j - 1]@));
                }
            } else if i == p {
                if j - 1 > p {
                    assert(text_lt(before[p as int]@, before[j - 1]@));
                    text_lt_transitive(after[i]@, before[p as int]@, before[j - 1]@);
                }
            } else {
                assert(text_lt(before[i - 1]@, before[j - 1]@));
            }
        }
        assert forall|f: Seq<char>| #[trigger] name_set(after).contains(f) == name_set(before).insert(
            x@,
        ).contains(f) by {
            if names_contain(after, f) {
                let q = choose|q: int| 0 <= q < after.len() && (#[trigger] after[q])@ == f;
                if q < p {
                    assert(before[q]@ == f);
                } else if q > p {
                    assert(before[q - 1]@ == f);
                }
            }
            if names_contain(before, f) {
                let q = choose|q: int| 0 <= q < before.len() && (#[trigger] before[q])@ == f;
                if q < p {
                    assert(after[q]@ == f);
                } else {
                    assert(after[q + 1]@ == f);
                }
            }
            if f == x@ {
                assert(after[p as int]@ == f);
            }
        }
        assert(name_set(after) =~= name_set(before).insert(x@));
    }
}

/// The names in strictly increasing order, each once.
fn sorted_names(names: &Vec<String>) -> (r: Vec<String>)
    ensures
        strictly_sorted(r@),
        name_set(r@) == name_set(names@),
{
    let mut out: Vec<String> = Vec::new();
    let mut i: usize = 0;
    assert(name_set(out@) =~= name_set(names@.take(0)));
    while i < names.len()
        invariant
            i <= names@.len(),
            strictly_sorted(out@),
            name_set(out@) == name_set(names@.take(i as int)),
        decreases names.len() - i,
    {
        insert_sorted(&mut out, names[i].clone());
        proof {
            let t0 = names@.take(i as int);
            let t1 = names@.take(i as int + 1);
            assert forall|f: Seq<char>| #[trigger] name_set(t1).contains(f) == name_set(t0).insert(
                names@[i as int]@,
            ).contains(f) by {
                if names_contain(t1, f) {
                    let q = choose|q: int| 0 <= q < t1.len() && (#[trigger] t1[q])@ == f;
                    if q < i {
                        assert(t0[q] == t1[q]);
                    }
                }
                if names_contain(t0, f) {
                    let q = choose|q: int| 0 <= q < t0.len() && (#[trigger] t0[q])@ == f;
                    assert(t1[q] == t0[q]);
                }
                if f == names@[i as int]@ {
                    assert(t1[i as int] == names@[i as int]);
                }
            }
            assert(name_set(t1) =~= name_set(t0).insert(names@[i as int]@));
        }
        i += 1;
    }
    assert(names@.take(names@.len() as int) =~= names@);
    out
}

/// The field names a profile metadata schema declares filterable, in
/// ascending order, each once.
pub fn filterable_fields_from_schema(metadata_schema: &JsonValue) -> (r: Vec<String>)
    ensures
        name_set(r@) == filterable_fields(metadata_schema.model()),
        strictly_sorted(r@),
{
    let ghost schema = metadata_schema.model();
    let mut fields: Vec<String> = Vec::new();
    match schema_listed(metadata_schema) {
        Some(values) => collect_listed(&mut fields, values),
        None => {},
    }
    assert(name_set(fields@) =~= string_set(listed_fields(schema))) by {
        assert(name_set(Seq::<String>::empty()) =~= Set::<Seq<char>>::empty());
    }
    let ghost entities_spec = entity_list(schema);
    match schema_entities(metadata_schema) {
        Some(entities) => {
            let mut e: usize = 0;
            while e < entities.len()
                invariant
                    e <= entities.len(),
                    entities_spec == entry_models(entities@),
                    name_set(fields@) == string_set(listed_fields(schema)).union(
                        filterable_names(field_entries(entities_spec.take(e as int))),
                    ),
                decreases entities.len() - e,
            {
                proof {
                    lemma_field_entries_step(entities_spec, e as int);
                    lemma_filterable_names_concat(
                        field_entries(entities_spec.take(e as int)),
                        fields_of(entities_spec[e as int].1),
                    );
                    assert(entities_spec[e as int].1 == entities@[e as int].value.model());
                }
                match entity_fields(&entities[e].value) {
                    Some(entity_entries) => {
                        collect_filterable(&mut fields, entity_entries);
                    },
                    None => {
                        assert(filterable_names(Seq::<(Seq<char>, Json)>::empty()) =~= Set::<Seq<char>>::empty());
                    },
                }
                e += 1;
                assert(name_set(fields@) =~= string_set(listed_fields(schema)).union(
                    filterable_names(field_entries(entities_spec.take(e as int)))));
            }
            assert(entities_spec.take(entities.len() as int) =~= entities_spec);
        },
        None => {
            assert(field_entries(entities_spec) =~= Seq::<(Seq<char>, Json)>::empty());
            assert(filterable_names(Seq::<(Seq<char>, Json)>::empty()) =~= Set::<Seq<char>>::empty());
        },
    }
    assert(name_set(fields@) =~= filterable_fields(schema));
    sorted_names(&fields)
}

// ----------------------------------------------------------------------------
// Enum constraints
// ----------------------------------------------------------------------------

/// What the entries seen so far say of the allowed values of one field.
pub enum ConstraintState {
    /// No filterable entry for the field yet.
    Absent,
    /// Every filterable entry so far restricts the field to an enum; these are
    /// the allowed values, in first-seen order without repeats.
    Collecting(Seq<Json>),
    /// Some filterable entry leaves the field unrestricted.
    Unconstrained,
}

/// The values of a field schema's `enum` array, when it has one.
#[verifier::opaque]
pub open spec fn enum_values(field_schema: Json) -> Option<Seq<Json>> {
    match json_get(field_schema, "enum"@) {
        Some(Json::Array(vs)) => Some(vs),
        _ => None,
    }
}

/// `existing` followed by the values of `vals` not already present, in order.
pub open spec fn merge_new(existing: Seq<Json>, vals: Seq<Json>) -> Seq<Json>
    decreases vals.len(),
{
    if vals.len() == 0 {
        existing
    } else {
        let m = merge_new(existing, vals.drop_last());
        if m.contains(vals.last()) {
            m
        } else {
            m.push(vals.last())
        }
    }
}

/// The values collected so far.
pub open spec fn collected(s: ConstraintState) -> Seq<Json> {
    match s {
        ConstraintState::Collecting(v) => v,
        _ => Seq::empty(),
    }
}

/// The state after one more filterable field schema for the field.
pub open spec fn step_state(prev: ConstraintState, field_schema: Json) -> ConstraintState {
    match prev {
        ConstraintState::Unconstrained => ConstraintState::Unconstrained,
        _ => match enum_values(field_schema) {
            Some(vals) => if vals.len() == 0 {
                ConstraintState::Unconstrained
            } else {
                ConstraintState::Collecting(merge_new(collected(prev), vals))
            },
            None => ConstraintState::Unconstrained,
        },
    }
}

/// The state for field `name` after walking `entries` from `start`.
pub open spec fn fold_state(start: ConstraintState, entries: Seq<(Seq<char>, Json)>, name: Seq<char>) -> ConstraintState
    decreases entries.len(),
{
    if entries.len() == 0 {
        start
    } else {
        let prev = fold_state(start, entries.drop_last(), name);
        if entries.last().0 == name && is_filterable(entries.last().1) {
            step_state(prev, entries.last().1)
        } else {
            prev
        }
    }
}

/// The allowed values of a field under a schema: those of the `enum` arrays
/// of all its filterable field schemas, when each of them has a non-empty one.
pub open spec fn constraint_of(schema: Json, name: Seq<char>) -> Option<Seq<Json>> {
    match fold_state(ConstraintState::Absent, schema_field_entries(schema), name) {
        ConstraintState::Collecting(v) => if v.len() > 0 {
            Some(v)
        } else {
            None
        },
        _ => None,
    }
}

/// Walking joined entries is walking one list and then the other.
proof fn lemma_fold_concat(
    start: ConstraintState,
    a: Seq<(Seq<char>, Json)>,
    b: Seq<(Seq<char>, Json)>,
    name: Seq<char>,
)
    ensures
        fold_state(start, a + b, name) == fold_state(fold_state(start, a, name), b, name),
    decreases b.len(),
{
    if b.len() == 0 {
        assert(a + b =~= a);
    } else {
        assert((a + b).drop_last() =~= a + b.drop_last());
        lemma_fold_concat(start, a, b.drop_last(), name);
    }
}

/// Running state of the enum constraint of one field.
struct ConstraintAcc {
    seen: bool,
    unconstrained: bool,
    values: Vec<JsonValue>,
}

impl ConstraintAcc {
    spec fn model(&self) -> ConstraintState {
        if !self.seen {
            ConstraintState::Absent
        } else if self.unconstrained {
            ConstraintState::Unconstrained
        } else {
            ConstraintState::Collecting(models(self.values@))
        }
    }

    spec fn wf(&self) -> bool {
        !self.seen ==> self.values@.len() == 0
    }
}

/// The values of a field schema's `enum` array, when it has one.
fn field_enum_values(field_schema: &JsonValue) -> (r: Option<&Vec<JsonValue>>)
    ensures
        r is Some ==> enum_values(field_schema.model()) == Some(models(r->0@)),
        r is None ==> enum_values(field_schema.model()) is None,
{
    reveal(enum_values);
    match get_member(field_schema, "enum") {
        Some(e) => as_array(e),
        None => None,
    }
}

/// Appends to `existing` the values of `vals` it does not hold yet.
fn merge_values(existing: &mut Vec<JsonValue>, vals: &Vec<JsonValue>)
    ensures
        models(final(existing)@) == merge_new(models(old(existing)@), models(vals@)),
{
    let ghost vs = models(vals@);
    let mut i: usize = 0;
    while i < vals.len()
        invariant
            i <= vals.len(),
            vs == models(vals@),
            models(existing@) == merge_new(models(old(existing)@), vs.take(i as int)),
        decreases vals.len() - i,
    {
        let ghost t1 = vs.take(i as int + 1);
        assert(t1.drop_last() =~= vs.take(i as int));
        assert(t1.last() == vals@[i as int].model());
        if !contains_value(existing, &vals[i]) {
            let c = clone_json(&vals[i]);
            let ghost before = existing@;
            existing.push(c);
            assert(models(existing@) =~= models(before).push(vals@[i as int].model()));
        }
        i += 1;
    }
    assert(vs.take(vals.len() as int) =~= vs);
}

/// Advances the constraint state over one entity's field entries.
fn advance_state(acc: &mut ConstraintAcc, entries: &Vec<JsonEntry>, name: &str)
    requires
        old(acc).wf(),
    ensures
        final(acc).wf(),
        final(acc).model() == fold_state(old(acc).model(), entry_models(entries@), name@),
{
    let ghost es = entry_models(entries@);
    let mut k: usize = 0;
    while k < entries.len()
        invariant
            k <= entries.len(),
            es == entry_models(entries@),
            acc.wf(),
            acc.model() == fold_state(old(acc).model(), es.take(k as int), name@),
        decreases entries.len() - k,
    {
        let ghost t1 = es.take(k as int + 1);
        assert(t1.drop_last() =~= es.take(k as int));
        assert(t1.last() == (entries@[k as int].key@, entries@[k as int].value.model()));
        let ghost prev = acc.model();
        proof {
            if !acc.seen {
                assert(models(acc.values@) =~= Seq::<Json>::empty());
            }
            assert(!(prev is Unconstrained) ==> collected(prev) == models(acc.values@));
        }
        if str_eq(entries[k].key.as_str(), name) && field_is_filterable(&entries[k].value) {
            if !acc.unconstrained || !acc.seen {
                match field_enum_values(&entries[k].value) {
                    Some(vals) => {
                        if vals.len() == 0 {
                            acc.seen = true;
                            acc.unconstrained = true;
                        } else {
                            if !acc.seen {
                                acc.seen = true;
                                acc.unconstrained = false;
                            }
                            merge_values(&mut acc.values, vals);
                        }
                    },
                    None => {
                        acc.seen = true;
                        acc.unconstrained = true;
                    },
                }
            }
        }
        k += 1;
    }
    assert(es.take(entries.len() as int) =~= es);
}

/// The allowed values of a field under a profile metadata schema (`None` when
/// the field is not restricted to an enum).
pub fn field_constraint_from_schema(metadata_schema: &JsonValue, field: &str) -> (r: Option<Vec<JsonValue>>)
    ensures
        match r {
            Some(v) => constraint_of(metadata_schema.model(), field@) == Some(models(v@)),
            None => constraint_of(metadata_schema.model(), field@) is None,
        },
{
    let ghost schema = metadata_schema.model();
    let mut acc = ConstraintAcc { seen: false, unconstrained: false, values: Vec::new() };
    let ghost entities_spec = entity_list(schema);
    match schema_entities(metadata_schema) {
        Some(entities) => {
            let mut e: usize = 0;
            while e < entities.len()
                invariant
                    e <= entities.len(),
                    entities_spec == entry_models(entities@),
                    acc.wf(),
                    acc.model() == fold_state(
                        ConstraintState::Absent,
                        field_entries(entities_spec.take(e as int)),
                        field@,
                    ),
                decreases entities.len() - e,
            {
                proof {
                    lemma_field_entries_step(entities_spec, e as int);
                    lemma_fold_concat(
                        ConstraintState::Absent,
                        field_entries(entities_spec.take(e as int)),
                        fields_of(entities_spec[e as int].1),
                        field@,
                    );
                    assert(entities_spec[e as int].1 == entities@[e as int].value.model());
                }
                match entity_fields(&entities[e].value) {
                    Some(entity_entries) => {
                        advance_state(&mut acc, entity_entries, field);
                    },
                    None => {
                        assert(fold_state(acc.model(), Seq::<(Seq<char>, Json)>::empty(), field@)
                            == acc.model());
                    },
                }
                e += 1;
            }
            assert(entities_spec.take(entities.len() as int) =~= entities_spec);
        },
        None => {
            assert(field_entries(entities_spec) =~= Seq::<(Seq<char>, Json)>::empty());
        },
    }
    assert(schema_field_entries(schema) == field_entries(entities_spec));
    if acc.seen && !acc.unconstrained && acc.values.len() > 0 {
        Some(acc.values)
    } else {
        None
    }
}

// ----------------------------------------------------------------------------
// Validation
// ----------------------------------------------------------------------------

/// The first error in a list of check outcomes.
pub open spec fn first_error(s: Seq<Option<Seq<char>>>) -> Option<Seq<char>>
    decreases s.len(),
{
    if s.len() == 0 {
        None
    } else {
        match first_error(s.drop_last()) {
            Some(m) => Some(m),
            None => s.last(),
        }
    }
}

/// One more outcome after a prefix.
proof fn lemma_first_error_step(s: Seq<Option<Seq<char>>>, k: int)
    requires
        0 <= k < s.len(),
    ensures
        first_error(s.take(k + 1)) == match first_error(s.take(k)) {
            Some(m) => Some(m),
            None => s[k],
        },
{
    assert(s.take(k + 1).drop_last() =~= s.take(k));
}

/// An error found in a prefix is the first error of the whole list.
proof fn lemma_first_error_stable(s: Seq<Option<Seq<char>>>, k: int)
    requires
        0 <= k <= s.len(),
        first_error(s.take(k)) is Some,
    ensures
        first_error(s) == first_error(s.take(k)),
    decreases s.len() - k,
{
    if k < s.len() {
        lemma_first_error_step(s, k);
        lemma_first_error_stable(s, k + 1);
    } else {
        assert(s.take(k) =~= s);
    }
}

/// A message about a named field: `metadata_filter field '<field>` then `rest`.
pub open spec fn field_message(field: Seq<char>, rest: Seq<char>) -> Seq<char> {
    "metadata_filter field '"@ + field + rest
}

/// The message for a value outside the field's enum.
pub open spec fn not_allowed_message(field: Seq<char>, value: Json, allowed: Seq<Json>) -> Seq<char> {
    field_message(
        field,
        "' value "@ + serde_json_text(value) + " is not allowed by profile schema enum "@ + serde_json_text(
            Json::Array(allowed),
        ),
    )
}

/// Check of one value against a field's enum constraint.
pub open spec fn value_check(field: Seq<char>, value: Json, constraint: Option<Seq<Json>>) -> Option<Seq<char>> {
    match constraint {
        None => None,
        Some(allowed) => if allowed.contains(value) {
            None
        } else {
            Some(not_allowed_message(field, value, allowed))
        },
    }
}

/// Check of a list of values against a field's enum constraint.
pub open spec fn values_check(field: Seq<char>, values: Seq<Json>, constraint: Option<Seq<Json>>) -> Option<Seq<char>> {
    first_error(Seq::new(values.len(), |i: int| value_check(field, values[i], constraint)))
}

/// How many operators are present.
pub open spec fn operator_count(o: OperatorsModel) -> int {
    (if o.eq is Some { 1int } else { 0int }) + (if o.ne is Some { 1int } else { 0int }) + (if o.in_values is Some {
        1int
    } else {
        0int
    }) + (if o.exists is Some { 1int } else { 0int })
}

/// Check of one field predicate.
pub open spec fn predicate_check(field: Seq<char>, p: PredicateModel, constraint: Option<Seq<Json>>) -> Option<Seq<char>> {
    match p {
        PredicateModel::Eq(v) => value_check(field, v, constraint),
        PredicateModel::Operators(o) => if operator_count(o) == 0 {
            Some(field_message(field, "' has no operator"@))
        } else if o.in_values is Some && o.in_values->0.len() == 0 {
            Some(field_message(field, "'.in cannot be empty"@))
        } else if o.in_values is Some && o.in_values->0.len() > MAX_IN_VALUES {
            Some(field_message(field, "'.in supports at most 64 values"@))
        } else if o.eq is Some && value_check(field, o.eq->0, constraint) is Some {
            value_check(field, o.eq->0, constraint)
        } else if o.ne is Some && value_check(field, o.ne->0, constraint) is Some {
            value_check(field, o.ne->0, constraint)
        } else if o.in_values is Some {
            values_check(field, o.in_values->0, constraint)
        } else {
            None
        },
    }
}

/// Check of one field entry of a clause against the schema.
pub open spec fn entry_check(field: Seq<char>, p: PredicateModel, schema: Json) -> Option<Seq<char>> {
    if !filterable_fields(schema).contains(field) {
        Some(field_message(field, "' is not declared filterable by profile schema"@))
    } else {
        predicate_check(field, p, constraint_of(schema, field))
    }
}

/// Check of one clause.
pub open spec fn clause_check(c: Seq<(Seq<char>, PredicateModel)>, schema: Json) -> Option<Seq<char>> {
    if c.len() == 0 {
        Some("metadata_filter.where cannot contain empty clauses"@)
    } else {
        first_error(Seq::new(c.len(), |k: int| entry_check(c[k].0, c[k].1, schema)))
    }
}

/// The number of field predicates over all clauses.
pub open spec fn spec_field_count(cs: Seq<Seq<(Seq<char>, PredicateModel)>>) -> int
    decreases cs.len(),
{
    if cs.len() == 0 {
        0
    } else {
        spec_field_count(cs.drop_last()) + cs.last().len()
    }
}

/// The outcome of validating a filter against a profile metadata schema:
/// `None` when it is valid, else the message of the first violation.
pub open spec fn validation_result(f: Seq<Seq<(Seq<char>, PredicateModel)>>, schema: Json) -> Option<Seq<char>> {
    if f.len() > MAX_FILTER_CLAUSES {
        Some("metadata_filter.where supports at most 16 clauses"@)
    } else if spec_field_count(f) > MAX_FILTER_FIELDS {
        Some("metadata_filter supports at most 32 field predicates"@)
    } else if f.len() == 0 {
        None
    } else if filterable_fields(schema).is_empty() {
        Some("metadata_filter requires profile metadata_schema.filterable_fields"@)
    } else {
        first_error(Seq::new(f.len(), |i: int| clause_check(f[i], schema)))
    }
}

/// The models of an optional list of values.
pub open spec fn opt_models(o: Option<Vec<JsonValue>>) -> Option<Seq<Json>> {
    match o {
        Some(v) => Some(models(v@)),
        None => None,
    }
}

/// The outcome as a result: valid, or a validation error with the message.
pub open spec fn as_validation(r: Result<(), AppError>, outcome: Option<Seq<char>>) -> bool {
    match outcome {
        None => r is Ok,
        Some(m) => r matches Err(AppError::Validation(s)) && s@ == m,
    }
}

/// `metadata_filter field '<field>` followed by `rest`.
fn build_field_message(field: &str, rest: &str) -> (r: String)
    ensures
        r@ == field_message(field@, rest@),
{
    let mut m = "metadata_filter field '".to_owned();
    push_str(&mut m, field);
    push_str(&mut m, rest);
    m
}

/// Checks one value against a field's enum constraint.
fn validate_field_value_against_constraint(
    field: &str,
    value: &JsonValue,
    constraint: &Option<Vec<JsonValue>>,
) -> (r: Result<(), AppError>)
    ensures
        as_validation(r, value_check(field@, value.model(), opt_models(*constraint))),
{
    match constraint {
        None => Ok(()),
        Some(allowed) => {
            if contains_value(allowed, value) {
                return Ok(());
            }
            let mut m = "metadata_filter field '".to_owned();
            push_str(&mut m, field);
            push_str(&mut m, "' value ");
            push_json_text(&mut m, value);
            push_str(&mut m, " is not allowed by profile schema enum ");
            push_array_text(&mut m, allowed);
            assert(m@ =~= not_allowed_message(field@, value.model(), models(allowed@)));
            Err(AppError::Validation(m))
        },
    }
}

/// Checks each value of a list against a field's enum constraint, in order.
fn validate_values_against_constraint(
    field: &str,
    values: &Vec<JsonValue>,
    constraint: &Option<Vec<JsonValue>>,
) -> (r: Result<(), AppError>)
    ensures
        as_validation(r, values_check(field@, models(values@), opt_models(*constraint))),
{
    let ghost outcomes = Seq::new(
        models(values@).len(),
        |i: int| value_check(field@, models(values@)[i], opt_models(*constraint)),
    );
    let mut i: usize = 0;
    while i < values.len()
        invariant
            i <= values.len(),
            outcomes == Seq::new(
                models(values@).len(),
                |i: int| value_check(field@, models(values@)[i], opt_models(*constraint)),
            ),
            first_error(outcomes.take(i as int)) is None,
        decreases values.len() - i,
    {
        proof {
            lemma_first_error_step(outcomes, i as int);
        }
        let r = validate_field_value_against_constraint(field, &values[i], constraint);
        assert(outcomes[i as int] == value_check(
            field@,
            values@[i as int].model(),
            opt_models(*constraint),
        ));
        if r.is_err() {
            proof {
                lemma_first_error_stable(outcomes, i as int + 1);
            }
            return r;
        }
        i += 1;
    }
    assert(outcomes.take(values.len() as int) =~= outcomes);
    Ok(())
}

impl MetadataFilterPredicate {
    /// Checks the predicate for `field` against the field's enum constraint.
    pub fn validate(&self, field: &str, constraint: &Option<Vec<JsonValue>>) -> (r: Result<(), AppError>)
        ensures
            as_validation(r, predicate_check(field@, self.model(), opt_models(*constraint))),
    {
        match self {
            MetadataFilterPredicate::Eq(value) => validate_field_value_against_constraint(
                field,
                value,
                constraint,
            ),
            MetadataFilterPredicate::Operators(operators) => {
                let ghost o = operators.model();
                if operators.eq.is_none() && operators.ne.is_none() && operators.in_values.is_none()
                    && operators.exists.is_none() {
                    return Err(AppError::Validation(build_field_message(field, "' has no operator")));
                }
                if let Some(values) = &operators.in_values {
                    if values.len() == 0 {
                        return Err(
                            AppError::Validation(build_field_message(field, "'.in cannot be empty")),
                        );
                    }
                    if values.len() > MAX_IN_VALUES {
                        return Err(
                            AppError::Validation(
                                build_field_message(field, "'.in supports at most 64 values"),
                            ),
                        );
                    }
                }
                if let Some(value) = &operators.eq {
                    let r = validate_field_value_against_constraint(field, value, constraint);
                    if r.is_err() {
                        return r;
                    }
                }
                if let Some(value) = &operators.ne {
                    let r = validate_field_value_against_constraint(field, value, constraint);
                    if r.is_err() {
                        return r;
                    }
                }
                if let Some(values) = &operators.in_values {
                    return validate_values_against_constraint(field, values, constraint);
                }
                Ok(())
            },
        }
    }
}

/// Whether a list of names holds the name.
fn names_include(names: &Vec<String>, name: &str) -> (r: bool)
    ensures
        r == names_contain(names@, name@),
{
    let mut i: usize = 0;
    while i < names.len()
        invariant
            i <= names.len(),
            forall|j: int| 0 <= j < i ==> names@[j]@ != name@,
        decreases names.len() - i,
    {
        if str_eq(names[i].as_str(), name) {
            return true;
        }
        i += 1;
    }
    false
}

impl MetadataFilter {
    /// The number of field predicates over all clauses.
    pub fn field_count(&self) -> (r: usize)
        requires
            spec_field_count(self.model()) <= usize::MAX,
        ensures
            r == spec_field_count(self.model()),
    {
        let ghost m = self.model();
        let mut total: usize = 0;
        let mut c: usize = 0;
        while c < self.clauses.len()
            invariant
                c <= self.clauses@.len(),
                m == self.model(),
                spec_field_count(m) <= usize::MAX,
                total == spec_field_count(m.take(c as int)),
            decreases self.clauses.len() - c,
        {
            proof {
                assert(m.take(c as int + 1).drop_last() =~= m.take(c as int));
                lemma_field_count_prefix(m, c as int + 1);
            }
            total = total + self.clauses[c].0.len();
            c += 1;
        }
        assert(m.take(self.clauses.len() as int) =~= m);
        total
    }

    /// Whether there are more than `MAX_FILTER_FIELDS` field predicates.
    fn too_many_fields(&self) -> (r: bool)
        ensures
            r == (spec_field_count(self.model()) > MAX_FILTER_FIELDS),
    {
        let ghost m = self.model();
        let mut total: usize = 0;
        let mut c: usize = 0;
        while c < self.clauses.len()
            invariant
                c <= self.clauses@.len(),
                m == self.model(),
                total == spec_field_count(m.take(c as int)),
                total <= MAX_FILTER_FIELDS,
            decreases self.clauses.len() - c,
        {
            assert(m.take(c as int + 1).drop_last() =~= m.take(c as int));
            let n = self.clauses[c].0.len();
            if n > MAX_FILTER_FIELDS - total {
                proof {
                    lemma_field_count_prefix(m, c as int + 1);
                }
                return true;
            }
            total = total + n;
            c += 1;
        }
        assert(m.take(self.clauses.len() as int) =~= m);
        false
    }

    /// Checks the filter against a profile metadata schema: bounded size,
    /// non-empty clauses, fields declared filterable, operators well formed
    /// and values inside the fields' enums. Errors are validation errors
    /// whose message names the first violation.
    pub fn validate_against_schema(&self, metadata_schema: &JsonValue) -> (r: Result<(), AppError>)
        ensures
            as_validation(r, validation_result(self.model(), metadata_schema.model())),
    {
        let ghost m = self.model();
        let ghost schema = metadata_schema.model();
        if self.clauses.len() > MAX_FILTER_CLAUSES {
            return Err(
                AppError::Validation("metadata_filter.where supports at most 16 clauses".to_owned()),
            );
        }
        if self.too_many_fields() {
            return Err(
                AppError::Validation(
                    "metadata_filter supports at most 32 field predicates".to_owned(),
                ),
            );
        }
        if self.is_empty() {
            return Ok(());
        }
        let filterable = filterable_fields_from_schema(metadata_schema);
        if filterable.len() == 0 {
            assert(filterable_fields(schema) =~= Set::<Seq<char>>::empty());
            return Err(
                AppError::Validation(
                    "metadata_filter requires profile metadata_schema.filterable_fields".to_owned(),
                ),
            );
        }
        assert(!filterable_fields(schema).is_empty()) by {
            assert(names_contain(filterable@, filterable@[0]@));
            assert(filterable_fields(schema).contains(filterable@[0]@));
        }
        let ghost outcomes = Seq::new(m.len(), |i: int| clause_check(m[i], schema));
        let mut c: usize = 0;
        while c < self.clauses.len()
            invariant
                c <= self.clauses@.len(),
                m == self.model(),
                schema == metadata_schema.model(),
                name_set(filterable@) == filterable_fields(schema),
                outcomes == Seq::new(m.len(), |i: int| clause_check(m[i], schema)),
                first_error(outcomes.take(c as int)) is None,
                m.len() <= MAX_FILTER_CLAUSES,
                spec_field_count(m) <= MAX_FILTER_FIELDS,
                m.len() > 0,
                !filterable_fields(schema).is_empty(),
            decreases self.clauses.len() - c,
        {
            proof {
                lemma_first_error_step(outcomes, c as int);
            }
            let r = self.validate_clause(c, &filterable, metadata_schema);
            assert(outcomes[c as int] == clause_check(m[c as int], schema));
            if r.is_err() {
                proof {
                    lemma_first_error_stable(outcomes, c as int + 1);
                }
                return r;
            }
            c += 1;
        }
        assert(outcomes.take(self.clauses.len() as int) =~= outcomes);
        Ok(())
    }

    /// Checks clause `c` of the filter.
    fn validate_clause(&self, c: usize, filterable: &Vec<String>, metadata_schema: &JsonValue) -> (r: Result<(), AppError>)
        requires
            c < self.clauses@.len(),
            name_set(filterable@) == filterable_fields(metadata_schema.model()),
        ensures
            as_validation(r, clause_check(self.model()[c as int], metadata_schema.model())),
    {
        let ghost schema = metadata_schema.model();
        let clause = &self.clauses[c].0;
        let ghost cm = self.model()[c as int];
        assert(cm == self.clauses@[c as int].model());
        if clause.len() == 0 {
            return Err(
                AppError::Validation("metadata_filter.where cannot contain empty clauses".to_owned()),
            );
        }
        let ghost outcomes = Seq::new(cm.len(), |k: int| entry_check(cm[k].0, cm[k].1, schema));
        let mut k: usize = 0;
        while k < clause.len()
            invariant
                k <= clause@.len(),
                clause == &self.clauses@[c as int].0,
                cm == self.clauses@[c as int].model(),
                name_set(filterable@) == filterable_fields(schema),
                schema == metadata_schema.model(),
                outcomes == Seq::new(cm.len(), |k: int| entry_check(cm[k].0, cm[k].1, schema)),
                first_error(outcomes.take(k as int)) is None,
                cm.len() > 0,
                c < self.clauses@.len(),
                cm == self.model()[c as int],
            decreases clause.len() - k,
        {
            proof {
                lemma_first_error_step(outcomes, k as int);
            }
            assert(cm[k as int] == (clause@[k as int].0@, clause@[k as int].1.model()));
            let field = clause[k].0.as_str();
            let known = names_include(filterable, field);
            assert(known == filterable_fields(schema).contains(field@));
            let r = if !known {
                Err(
                    AppError::Validation(
                        build_field_message(field, "' is not declared filterable by profile schema"),
                    ),
                )
            } else {
                let constraint = field_constraint_from_schema(metadata_schema, field);
                assert(opt_models(constraint) == constraint_of(schema, field@));
                clause[k].1.validate(field, &constraint)
            };
            assert(outcomes[k as int] == entry_check(cm[k as int].0, cm[k as int].1, schema));
            if r.is_err() {
                proof {
                    lemma_first_error_stable(outcomes, k as int + 1);
                }
                return r;
            }
            k += 1;
        }
        assert(outcomes.take(clause.len() as int) =~= outcomes);
        Ok(())
    }
}

/// Field counts only grow along a list of clauses.
proof fn lemma_field_count_prefix(m: Seq<Seq<(Seq<char>, PredicateModel)>>, k: int)
    requires
        0 <= k <= m.len(),
    ensures
        spec_field_count(m.take(k)) <= spec_field_count(m),
    decreases m.len() - k,
{
    if k < m.len() {
        assert(m.take(k + 1).drop_last() =~= m.take(k));
        lemma_field_count_prefix(m, k + 1);
    } else {
        assert(m.take(k) =~= m);
    }
}

} // verus!
