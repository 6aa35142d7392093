//! Active records from sparse JSON objects.
//!
//! A key that the object holds becomes an `Assigned` slot; a key that it
//! lacks leaves its slot `NotSet`. Records are turned into JSON and back by
//! the caller's serialiser and deserialiser; what is decided here is which
//! keys count, how the defaults fill the gaps, and what happens to the
//! primary key.

use crate::entity::active_model::{ActiveModelTrait, IntoActiveModel};
use crate::entity::active_value::{ActiveValue, SlotView};
use crate::entity::base_entity::{is_pk_column, pk_columns, EntityTrait};
use crate::entity::column::{ColumnTrait, IdenStatic, Iterable};
use crate::entity::model::TryIntoModel;
use crate::entity::primary_key::PrimaryKeyToColumn;
use crate::error::DbErr;
use crate::value::Value;
use vstd::prelude::*;
use vstd::string::StringExecFns;

verus! {

/// The members of a JSON object, held as `serde_json` holds them. The
/// proofs know the members by [`object_members`]: the keys, each with the
/// JSON text of its member.
#[verifier::external_body]
pub struct JsonObject {
    members: serde_json::Map<String, serde_json::Value>,
}

/// The members of a JSON object: each key with the JSON text of its
/// member.
pub uninterp spec fn object_members(obj: JsonObject) -> Map<Seq<char>, Seq<char>>;

/// The members of the JSON object that `serde_json` reads from a text, or
/// none where it reads no object from it: the text is no JSON, is JSON of
/// another kind, or nests deeper than the parser goes.
pub uninterp spec fn text_object_members(text: Seq<char>) -> Option<Map<Seq<char>, Seq<char>>>;

/// The JSON text that `serde_json` writes for an object of the given
/// members. It writes the members in the order of their keys, so the text
/// is the same for the same members.
pub uninterp spec fn members_text(members: Map<Seq<char>, Seq<char>>) -> Seq<char>;

/// The keys of the members of a JSON object.
pub open spec fn object_keys(obj: JsonObject) -> Set<Seq<char>> {
    object_members(obj).dom()
}

/// The keys of the members of the JSON object that a text denotes, or none
/// where the text denotes none.
pub open spec fn text_object_keys(text: Seq<char>) -> Option<Set<Seq<char>>> {
    match text_object_members(text) {
        Some(members) => Some(members.dom()),
        None => None,
    }
}

/// `serde_json::from_str` at the type of an object's members: the object
/// read from the text, or none where the parser fails.
#[verifier::external_body]
fn parse_object(text: &str) -> (r: Option<JsonObject>)
    ensures
        match r {
            Some(obj) => text_object_members(text@) == Some(object_members(obj)),
            None => text_object_members(text@) is None,
        },
{
    match serde_json::from_str(text) {
        Ok(members) => Some(JsonObject { members }),
        Err(_) => None,
    }
}

/// `serde_json::to_string` of an object's members: the text of the object.
/// The text is that of the members, and read back it is an object of the
/// same keys: an object is made by reading a text or by merging the
/// members of two objects, so it nests no deeper than the parser goes.
#[verifier::external_body]
fn object_text(obj: &JsonObject) -> (r: String)
    ensures
        r@ == members_text(object_members(*obj)),
        text_object_keys(r@) == Some(object_members(*obj).dom()),
{
    serde_json::to_string(&obj.members).unwrap_or_default()
}

/// `serde_json::Map::contains_key`: whether the object has a member with
/// the given key.
#[verifier::external_body]
fn object_contains_key(obj: &JsonObject, key: &str) -> (b: bool)
    ensures
        b == object_members(*obj).dom().contains(key@),
{
    obj.members.contains_key(key)
}

/// `Extend::extend` of `serde_json::Map`: every member of `over` is
/// inserted into `base`, replacing a member of the same key.
#[verifier::external_body]
fn object_extend(base: &mut JsonObject, over: JsonObject)
    ensures
        object_members(*final(base)) == object_members(*old(base)).union_prefer_right(
            object_members(over),
        ),
{
    base.members.extend(over.members);
}

impl JsonObject {
    /// The object read from a text, or none where no object is read from
    /// it.
    pub fn parse(text: &str) -> (r: Option<JsonObject>)
        ensures
            match r {
                Some(obj) => text_object_members(text@) == Some(object_members(obj)),
                None => text_object_members(text@) is None,
            },
    {
        parse_object(text)
    }

    /// Whether the object has a member with the given key.
    pub fn contains_key(&self, key: &str) -> (b: bool)
        ensures
            b == object_keys(*self).contains(key@),
    {
        object_contains_key(self, key)
    }
}

/// For each column, whether the object has a member of the column's name.
pub open spec fn presence_spec<C: ColumnTrait>(keys: Set<Seq<char>>) -> Seq<(C, bool)> {
    C::spec_iter().map_values(|c: C| (c, keys.contains(c.spec_name())))
}

/// The slots of a record masked by the presence of its columns: a column
/// that is present and has a value is `Assigned` that value; every other
/// column is `NotSet`.
pub open spec fn masked<E: EntityTrait>(
    slots: Map<E::Column, SlotView>,
    keys: Set<Seq<char>>,
) -> Map<E::Column, SlotView> {
    Map::total(
        |c: E::Column|
            match slots[c].payload() {
                Some(v) => if keys.contains(c.spec_name()) {
                    SlotView::Assigned(v)
                } else {
                    SlotView::NotSet
                },
                None => SlotView::NotSet,
            },
    )
}

/// The slots of a record with the primary key of another: a key column
/// that has a value in `saved` is `Assigned` that value, a key column that
/// has none is `NotSet`, and every other column is as in `slots`.
pub open spec fn with_primary_key<E: EntityTrait>(
    slots: Map<E::Column, SlotView>,
    saved: Map<E::Column, SlotView>,
) -> Map<E::Column, SlotView> {
    Map::total(
        |c: E::Column|
            if is_pk_column::<E>(c) {
                match saved[c].payload() {
                    Some(v) => SlotView::Assigned(v),
                    None => SlotView::NotSet,
                }
            } else {
                slots[c]
            },
    )
}

/// The slots of a record without its primary key: every key column is
/// `NotSet`.
pub open spec fn without_primary_key<E: EntityTrait>(slots: Map<E::Column, SlotView>) -> Map<
    E::Column,
    SlotView,
> {
    Map::total(
        |c: E::Column|
            if is_pk_column::<E>(c) {
                SlotView::NotSet
            } else {
                slots[c]
            },
    )
}

/// For each column of `C`, in declaration order, whether the object has a
/// member of the column's name.
pub fn key_presence<C: ColumnTrait>(obj: &JsonObject) -> (r: Vec<(C, bool)>)
    ensures
        r@ == presence_spec::<C>(object_keys(*obj)),
{
    let cols = C::iter();
    let mut json_keys: Vec<(C, bool)> = Vec::new();
    let mut i: usize = 0;
    while i < cols.len()
        invariant
            i <= cols.len(),
            cols@ == C::spec_iter(),
            json_keys@.len() == i,
            forall|j: int|
                0 <= j < i ==> #[trigger] json_keys@[j] == (
                    cols@[j],
                    object_keys(*obj).contains(cols@[j].spec_name()),
                ),
        decreases cols.len() - i,
    {
        let col = cols[i];
        let has_key = obj.contains_key(col.as_str());
        json_keys.push((col, has_key));
        i += 1;
    }
    assert(json_keys@ =~= presence_spec::<C>(object_keys(*obj)));
    json_keys
}

/// Mask a record by the presence of its columns: a column that is present
/// and has a value is `Assigned` that value; every other column is
/// `NotSet`.
pub fn mask_by_presence<A: ActiveModelTrait>(
    am: A,
    presence: &Vec<(<A::Entity as EntityTrait>::Column, bool)>,
) -> (r: A)
    requires
        exists|keys: Set<Seq<char>>|
            presence@ == #[trigger] presence_spec::<<A::Entity as EntityTrait>::Column>(keys),
    ensures
        forall|keys: Set<Seq<char>>|
            presence@ == #[trigger] presence_spec::<<A::Entity as EntityTrait>::Column>(keys)
                ==> r.slots() == masked::<A::Entity>(am.slots(), keys),
{
    let ghost keys = choose|keys: Set<Seq<char>>|
        presence@ == #[trigger] presence_spec::<<A::Entity as EntityTrait>::Column>(keys);
    let mut me = am;
    let ghost cols = <A::Entity as EntityTrait>::Column::spec_iter();
    let ghost want = masked::<A::Entity>(am.slots(), keys);
    proof {
        <A::Entity as EntityTrait>::Column::lemma_iter_distinct();
        am.lemma_slots_total();
    }
    let mut i: usize = 0;
    while i < presence.len()
        invariant
            i <= presence.len(),
            presence@ == presence_spec::<<A::Entity as EntityTrait>::Column>(keys),
            cols == <A::Entity as EntityTrait>::Column::spec_iter(),
            cols.no_duplicates(),
            want == masked::<A::Entity>(am.slots(), keys),
            me.slots().dom().is_full(),
            forall|j: int| 0 <= j < i ==> me.slots()[#[trigger] cols[j]] == want[cols[j]],
            forall|j: int|
                i <= j < cols.len() ==> me.slots()[#[trigger] cols[j]] == am.slots()[cols[j]],
        decreases presence.len() - i,
    {
        let col = presence[i].0;
        let exists = presence[i].1;
        assert(col == cols[i as int]);
        assert(exists == keys.contains(col.spec_name()));
        match me.get(col) {
            ActiveValue::Assigned(value) => {
                if exists {
                    proof {
                        me.lemma_payload_accepted(col);
                    }
                    me.set(col, value);
                } else {
                    me.not_set(col);
                }
            },
            ActiveValue::Unchanged(value) => {
                if exists {
                    proof {
                        me.lemma_payload_accepted(col);
                    }
                    me.set(col, value);
                } else {
                    me.not_set(col);
                }
            },
            ActiveValue::NotSet => {
                me.not_set(col);
            },
        }
        proof {
            me.lemma_slots_total();
        }
        i += 1;
    }
    proof {
        assert forall|c: <A::Entity as EntityTrait>::Column|
            me.slots().dom().contains(c) && want.dom().contains(c) && #[trigger] me.slots()[c]
                == want[c] by {
            <A::Entity as EntityTrait>::Column::lemma_iter_complete(c);
            let j = choose|j: int| 0 <= j < cols.len() && cols[j] == c;
            assert(me.slots()[cols[j]] == want[cols[j]]);
        }
        assert(me.slots() =~= want);
        assert forall|other: Set<Seq<char>>|
            presence@ == #[trigger] presence_spec::<<A::Entity as EntityTrait>::Column>(
                other,
            ) implies me.slots() == masked::<A::Entity>(am.slots(), other) by {
            let there = masked::<A::Entity>(am.slots(), other);
            assert forall|c: <A::Entity as EntityTrait>::Column| #[trigger] want[c] == there[c] by {
                <A::Entity as EntityTrait>::Column::lemma_iter_complete(c);
                let j = choose|j: int| 0 <= j < cols.len() && cols[j] == c;
                assert(presence_spec::<<A::Entity as EntityTrait>::Column>(keys)[j]
                    == presence_spec::<<A::Entity as EntityTrait>::Column>(other)[j]);
            }
            assert(want =~= there);
        }
    }
    me
}

/// Whether a message says that a JSON object was expected for the entity
/// `E`: the fixed words, then the entity's name.
pub open spec fn is_not_an_object_message<E: EntityTrait>(msg: Seq<char>) -> bool {
    exists|entity: E| msg == "invalid type: expected JSON object for "@ + #[trigger] entity.spec_name()
}

/// The error for a text from which no JSON object is read.
pub fn not_an_object<E: EntityTrait>() -> (e: DbErr)
    ensures
        e matches DbErr::Json(msg) && is_not_an_object_message::<E>(msg@),
{
    let entity = E::default();
    let msg = String::from_str("invalid type: expected JSON object for ").concat(entity.as_str());
    assert("invalid type: expected JSON object for "@ + entity.spec_name() == msg@);
    DbErr::Json(msg)
}

/// The characters of a text that may be missing.
pub open spec fn text_view(text: Option<String>) -> Option<Seq<char>> {
    match text {
        Some(t) => Some(t@),
        None => None,
    }
}

/// Whether `text` is what the serialiser gave for a record of default
/// values: its text, or none where the default values make no record or
/// the serialiser gives no text for it.
pub open spec fn is_default_text<A, M, S>(serialize: S, text: Option<Seq<char>>) -> bool where
    A: ActiveModelTrait + TryIntoModel<M>,
    S: Fn(&M) -> Option<String>,
 {
    exists|defaults: A|
        {
            &&& #[trigger] call_ensures(A::default_values, (), defaults)
            &&& {
                ||| text is None && exists|e: DbErr| #[trigger]
                    call_ensures(
                        <A as TryIntoModel<M>>::try_into_model,
                        (defaults,),
                        Err::<M, DbErr>(e),
                    )
                ||| exists|dummy: M, given: Option<String>|
                    {
                        &&& #[trigger] call_ensures(
                            <A as TryIntoModel<M>>::try_into_model,
                            (defaults,),
                            Ok::<M, DbErr>(dummy),
                        )
                        &&& #[trigger] call_ensures(serialize, (&dummy,), given)
                        &&& text == text_view(given)
                    }
            }
        }
}

/// The members that the defaults contribute: those of the object read from
/// the text of the default record; none where there is no such text or no
/// object is read from it.
pub open spec fn default_members(text: Option<Seq<char>>) -> Map<Seq<char>, Seq<char>> {
    match text {
        Some(t) => match text_object_members(t) {
            Some(members) => members,
            None => Map::empty(),
        },
        None => Map::empty(),
    }
}

/// What [`from_json`] does with an object of the members `input`, where
/// `default_text` is the text of the record of default values and `text`
/// the text handed to the deserialiser.
///
/// The text is that of the object's members laid over the members of the
/// defaults, so a key of the object carries the object's member. A record
/// that the deserialiser reads from it becomes an active record, masked by
/// the keys of the object; an error of the deserialiser is a JSON error
/// with its message.
pub open spec fn json_outcome<A, M, S, D>(
    serialize: S,
    deserialize: D,
    input: Map<Seq<char>, Seq<char>>,
    default_text: Option<Seq<char>>,
    text: &str,
    r: Result<A, DbErr>,
) -> bool where
    A: ActiveModelTrait + TryIntoModel<M>,
    M: IntoActiveModel<A>,
    S: Fn(&M) -> Option<String>,
    D: Fn(&str) -> Result<M, String>,
 {
    &&& is_default_text::<A, M, S>(serialize, default_text)
    &&& text@ == members_text(default_members(default_text).union_prefer_right(input))
    &&& text_object_keys(text@) == Some(default_members(default_text).dom().union(input.dom()))
    &&& match r {
        Ok(am) => exists|model: M, raw: A|
            {
                &&& #[trigger] call_ensures(deserialize, (text,), Ok::<M, String>(model))
                &&& #[trigger] call_ensures(
                    <M as IntoActiveModel<A>>::into_active_model,
                    (model,),
                    raw,
                )
                &&& am.slots() == masked::<A::Entity>(raw.slots(), input.dom())
            },
        Err(e) => e matches DbErr::Json(msg) && call_ensures(
            deserialize,
            (text,),
            Err::<M, String>(msg),
        ),
    }
}

/// Make an active record from the text of a sparse JSON object.
///
/// Where no JSON object is read from the text, the result is the JSON error
/// that says so and names the entity. Else the members of the object are
/// laid over those of the JSON of a record of default values, where the
/// record type has one and the serialiser renders it as an object, so that
/// the deserialiser finds every field. The record that the deserialiser
/// reads from that text becomes an active record, which is then masked: a
/// column whose name is a key of the given object is `Assigned`, every
/// other column is `NotSet`. An error of the deserialiser is a JSON error.
pub fn from_json<A, M, S, D>(json: &str, serialize: S, deserialize: D) -> (r: Result<A, DbErr>) where
    A: ActiveModelTrait + TryIntoModel<M>,
    M: IntoActiveModel<A>,
    S: Fn(&M) -> Option<String>,
    D: Fn(&str) -> Result<M, String>,

    requires
        forall|m: &M| call_requires(serialize, (m,)),
        forall|text: &str| call_requires(deserialize, (text,)),
        forall|am: A| call_requires(<A as TryIntoModel<M>>::try_into_model, (am,)),
        forall|m: M| call_requires(<M as IntoActiveModel<A>>::into_active_model, (m,)),
    ensures
        text_object_members(json@) is None ==> (r matches Err(DbErr::Json(msg))
            && is_not_an_object_message::<A::Entity>(msg@)),
        text_object_members(json@) is Some ==> exists|
            text: &str,
            default_text: Option<Seq<char>>,
        | #[trigger]
            json_outcome::<A, M, S, D>(
                serialize,
                deserialize,
                text_object_members(json@)->Some_0,
                default_text,
                text,
                r,
            ),
{
    let obj = match JsonObject::parse(json) {
        Some(obj) => obj,
        None => {
            return Err(not_an_object::<A::Entity>());
        },
    };
    let ghost input = object_members(obj);
    // which columns the object names
    let json_keys = key_presence::<<A::Entity as EntityTrait>::Column>(&obj);
    // the members over the JSON of a record of default values
    let mut merged = obj;
    let ghost mut default_text: Option<Seq<char>> = None;
    let defaults = A::default_values();
    let ghost the_defaults = defaults;
    match defaults.try_into_model() {
        Ok(dummy_model) => {
            let given = serialize(&dummy_model);
            proof {
                default_text = text_view(given);
                assert(call_ensures(
                    <A as TryIntoModel<M>>::try_into_model,
                    (the_defaults,),
                    Ok::<M, DbErr>(dummy_model),
                ));
                assert(call_ensures(serialize, (&dummy_model,), given));
            }
            match given {
                Some(dummy_text) => match JsonObject::parse(dummy_text.as_str()) {
                    Some(dummy) => {
                        let mut base = dummy;
                        object_extend(&mut base, merged);
                        merged = base;
                    },
                    None => {
                        assert(object_members(merged) =~= Map::<
                            Seq<char>,
                            Seq<char>,
                        >::empty().union_prefer_right(input));
                    },
                },
                None => {
                    assert(object_members(merged) =~= Map::<
                        Seq<char>,
                        Seq<char>,
                    >::empty().union_prefer_right(input));
                },
            }
        },
        Err(e) => {
            assert(call_ensures(
                <A as TryIntoModel<M>>::try_into_model,
                (the_defaults,),
                Err::<M, DbErr>(e),
            ));
            assert(object_members(merged) =~= Map::<Seq<char>, Seq<char>>::empty().union_prefer_right(
                input,
            ));
        },
    }
    assert(is_default_text::<A, M, S>(serialize, default_text));
    assert(object_members(merged) == default_members(default_text).union_prefer_right(input));
    let text = object_text(&merged);
    // the record that the merged text denotes
    let merged_text = text.as_str();
    proof {
        assert(default_members(default_text).union_prefer_right(input).dom()
            =~= default_members(default_text).dom().union(input.dom()));
    }
    let out: Result<A, DbErr> = match deserialize(merged_text) {
        Ok(model) => {
            let raw = model.into_active_model();
            Ok(mask_by_presence(raw, &json_keys))
        },
        Err(msg) => Err(DbErr::Json(msg)),
    };
    assert(json_outcome::<A, M, S, D>(
        serialize,
        deserialize,
        text_object_members(json@)->Some_0,
        default_text,
        merged_text,
        out,
    ));
    out
}

/// Move the slots of the primary key out of a record: the slot of each key
/// column, in declaration order. The key columns are `NotSet` afterwards.
pub fn take_primary_key<A: ActiveModelTrait>(am: &mut A) -> (saved: Vec<
    (<A::Entity as EntityTrait>::Column, ActiveValue<Value>),
>)
    ensures
        final(am).slots() == without_primary_key::<A::Entity>(old(am).slots()),
        saved@.len() == pk_columns::<A::Entity>().len(),
        forall|i: int|
            0 <= i < saved@.len() ==> (#[trigger] saved@[i]).0 == pk_columns::<A::Entity>()[i]
                && saved@[i].1@ == old(am).slots()[saved@[i].0],
        forall|i: int|
            0 <= i < saved@.len() ==> ((#[trigger] saved@[i]).1@.payload() matches Some(v)
                ==> A::accepts(saved@[i].0, v)),
{
    let keys = <A::Entity as EntityTrait>::PrimaryKey::iter();
    let ghost cols = pk_columns::<A::Entity>();
    let ghost before = am.slots();
    proof {
        crate::entity::base_entity::lemma_pk_columns_distinct::<A::Entity>();
        am.lemma_slots_total();
    }
    let mut saved: Vec<(<A::Entity as EntityTrait>::Column, ActiveValue<Value>)> = Vec::new();
    let mut i: usize = 0;
    while i < keys.len()
        invariant
            i <= keys.len(),
            keys@ == <A::Entity as EntityTrait>::PrimaryKey::spec_iter(),
            cols == pk_columns::<A::Entity>(),
            cols.len() == keys@.len(),
            saved@.len() == i,
            am.slots().dom().is_full(),
            before.dom().is_full(),
            cols.no_duplicates(),
            forall|j: int|
                0 <= j < i ==> (#[trigger] saved@[j]).0 == cols[j] && saved@[j].1@
                    == before[cols[j]],
            forall|j: int|
                0 <= j < i ==> ((#[trigger] saved@[j]).1@.payload() matches Some(v)
                    ==> A::accepts(saved@[j].0, v)),
            forall|c: <A::Entity as EntityTrait>::Column|
                #![trigger am.slots()[c]]
                am.slots()[c] == if cols.take(i as int).contains(c) {
                    SlotView::NotSet
                } else {
                    before[c]
                },
        decreases keys.len() - i,
    {
        let col = keys[i].into_column();
        assert(col == cols[i as int]);
        let ghost prev = am.slots();
        proof {
            am.lemma_payload_accepted(col);
        }
        let taken = am.take(col);
        proof {
            am.lemma_slots_total();
            let done = cols.take(i as int);
            let next = cols.take(i + 1);
            assert(next =~= done.push(col));
            assert forall|c: <A::Entity as EntityTrait>::Column|
                #![trigger am.slots()[c]]
                am.slots()[c] == if next.contains(c) {
                    SlotView::NotSet
                } else {
                    before[c]
                } by {
                if c == col {
                    assert(next[i as int] == c);
                } else {
                    assert(am.slots()[c] == prev[c]);
                    if done.contains(c) {
                        let w = choose|w: int| 0 <= w < done.len() && done[w] == c;
                        assert(next[w] == c);
                    } else if next.contains(c) {
                        let w = choose|w: int| 0 <= w < next.len() && next[w] == c;
                        assert(done[w] == c);
                    }
                }
            }
            if done.contains(col) {
                let w = choose|w: int| 0 <= w < done.len() && done[w] == col;
                assert(cols[w] == cols[i as int]);
            }
            assert(prev[col] == before[col]);
        }
        saved.push((col, taken));
        i += 1;
    }
    proof {
        assert(cols.take(cols.len() as int) =~= cols);
        assert(am.slots() =~= without_primary_key::<A::Entity>(before));
    }
    saved
}

/// Put a saved primary key back into a record: a saved slot with a value
/// is `Assigned` that value, a saved slot without one is `NotSet`. The
/// other columns stay.
fn restore_primary_key<A: ActiveModelTrait>(
    am: &mut A,
    saved: Vec<(<A::Entity as EntityTrait>::Column, ActiveValue<Value>)>,
    Ghost(orig): Ghost<Map<<A::Entity as EntityTrait>::Column, SlotView>>,
)
    requires
        saved@.len() == pk_columns::<A::Entity>().len(),
        forall|i: int|
            0 <= i < saved@.len() ==> (#[trigger] saved@[i]).0 == pk_columns::<A::Entity>()[i]
                && saved@[i].1@ == orig[saved@[i].0],
        forall|i: int|
            0 <= i < saved@.len() ==> ((#[trigger] saved@[i]).1@.payload() matches Some(v)
                ==> A::accepts(saved@[i].0, v)),
    ensures
        final(am).slots() == with_primary_key::<A::Entity>(old(am).slots(), orig),
{
    let ghost cols = pk_columns::<A::Entity>();
    let ghost before = am.slots();
    let ghost all = saved@;
    proof {
        crate::entity::base_entity::lemma_pk_columns_distinct::<A::Entity>();
        am.lemma_slots_total();
    }
    for entry in it: saved
        invariant
            it.seq() == all,
            all.len() == cols.len(),
            cols == pk_columns::<A::Entity>(),
            cols.no_duplicates(),
            am.slots().dom().is_full(),
            forall|i: int|
                0 <= i < all.len() ==> (#[trigger] all[i]).0 == cols[i] && all[i].1@
                    == orig[all[i].0],
            forall|i: int|
                0 <= i < all.len() ==> ((#[trigger] all[i]).1@.payload() matches Some(v)
                    ==> A::accepts(all[i].0, v)),
            forall|c: <A::Entity as EntityTrait>::Column|
                #![trigger am.slots()[c]]
                am.slots()[c] == if cols.take(it.index() as int).contains(c) {
                    match orig[c].payload() {
                        Some(v) => SlotView::Assigned(v),
                        None => SlotView::NotSet,
                    }
                } else {
                    before[c]
                },
    {
        let ghost i = it.index() as int;
        let ghost prev = am.slots();
        assert(entry == all[i]);
        let (col, active_value) = entry;
        match active_value {
            ActiveValue::Unchanged(v) => {
                am.set(col, v);
            },
            ActiveValue::Assigned(v) => {
                am.set(col, v);
            },
            ActiveValue::NotSet => {
                am.not_set(col);
            },
        }
        proof {
            am.lemma_slots_total();
            let done = cols.take(i);
            let next = cols.take(i + 1);
            assert(next =~= done.push(col));
            assert forall|c: <A::Entity as EntityTrait>::Column|
                #![trigger am.slots()[c]]
                am.slots()[c] == if next.contains(c) {
                    match orig[c].payload() {
                        Some(v) => SlotView::Assigned(v),
                        None => SlotView::NotSet,
                    }
                } else {
                    before[c]
                } by {
                if c == col {
                    assert(next[i] == c);
                } else {
                    assert(am.slots()[c] == prev[c]);
                    if done.contains(c) {
                        let w = choose|w: int| 0 <= w < done.len() && done[w] == c;
                        assert(next[w] == c);
                    } else if next.contains(c) {
                        let w = choose|w: int| 0 <= w < next.len() && next[w] == c;
                        assert(done[w] == c);
                    }
                }
            }
        }
    }
    proof {
        assert(cols.take(cols.len() as int) =~= cols);
        assert(am.slots() =~= with_primary_key::<A::Entity>(before, orig));
    }
}

/// Set the slots of a record from the text of a sparse JSON object, and
/// keep the record's primary key.
///
/// If no active record can be made from the text, the error is returned
/// and the record stays as it was. Else the record is replaced by the one
/// made from the text, with the primary key of the old one: a key column
/// that had a value is `Assigned` that value, whatever the object holds for
/// it, and a key column that had none is `NotSet`.
pub fn set_from_json<A, M, S, D>(am: &mut A, json: &str, serialize: S, deserialize: D) -> (r: Result<
    (),
    DbErr,
>) where
    A: ActiveModelTrait + TryIntoModel<M>,
    M: IntoActiveModel<A>,
    S: Fn(&M) -> Option<String>,
    D: Fn(&str) -> Result<M, String>,

    requires
        forall|m: &M| call_requires(serialize, (m,)),
        forall|text: &str| call_requires(deserialize, (text,)),
        forall|a: A| call_requires(<A as TryIntoModel<M>>::try_into_model, (a,)),
        forall|m: M| call_requires(<M as IntoActiveModel<A>>::into_active_model, (m,)),
    ensures
        r is Ok ==> exists|made: A|
            {
                &&& #[trigger] call_ensures(
                    from_json::<A, M, S, D>,
                    (json, serialize, deserialize),
                    Ok::<A, DbErr>(made),
                )
                &&& final(am).slots() == with_primary_key::<A::Entity>(
                    made.slots(),
                    old(am).slots(),
                )
            },
        r matches Err(e) ==> {
            &&& call_ensures(
                from_json::<A, M, S, D>,
                (json, serialize, deserialize),
                Err::<A, DbErr>(e),
            )
            &&& *final(am) == *old(am)
        },
{
    let ghost orig = am.slots();
    match from_json::<A, M, S, D>(json, serialize, deserialize) {
        Err(e) => Err(e),
        Ok(new) => {
            // the primary key is set aside, the record from the text takes
            // the place of the old one, and the primary key comes back
            let primary_key_values = take_primary_key(am);
            *am = new;
            restore_primary_key(am, primary_key_values, Ghost(orig));
            Ok(())
        },
    }
}

} // verus!
