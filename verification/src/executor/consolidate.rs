//! The consolidation of joined rows: a flat sequence of
//! `(parent, optional child)` rows becomes one entry for each distinct
//! parent, in the order in which the parents were first seen, with all of
//! the parent's children in the order of the rows.

use crate::entity::base_entity::{pk_arity, pk_columns, EntityTrait};
use crate::entity::column::Iterable;
use crate::entity::model::ModelTrait;
use crate::entity::primary_key::{PrimaryKeyArity, PrimaryKeyToColumn, PrimaryKeyTrait};
use crate::value::{views, Value, ValueView};
use vstd::prelude::*;

verus! {

/// Whether a row before row `i` has the key of row `i`.
pub open spec fn key_seen_before<L, R>(
    rows: Seq<(L, Option<R>)>,
    key: spec_fn(L) -> Seq<ValueView>,
    i: int,
) -> bool {
    exists|j: int| 0 <= j < i && key((#[trigger] rows[j]).0) == key(rows[i].0)
}

/// The child that a row adds to the entry of the key `k`: the child of the
/// row, if the row has one and its parent has that key.
pub open spec fn child_for<L, R>(
    key: spec_fn(L) -> Seq<ValueView>,
    k: Seq<ValueView>,
    row: (L, Option<R>),
) -> Option<R> {
    if key(row.0) == k {
        row.1
    } else {
        None
    }
}

/// The children of the rows whose parent has the key `k`, in the order of
/// the rows. A row without a child adds nothing.
pub open spec fn children_of<L, R>(
    rows: Seq<(L, Option<R>)>,
    key: spec_fn(L) -> Seq<ValueView>,
    k: Seq<ValueView>,
) -> Seq<R> {
    rows.filter_map(|row: (L, Option<R>)| child_for(key, k, row))
}

/// The entry that row `i` opens: its parent with all the children of the
/// parent's key, if no earlier row has that key.
pub open spec fn group_at<L, R>(
    rows: Seq<(L, Option<R>)>,
    key: spec_fn(L) -> Seq<ValueView>,
    i: int,
) -> Option<(L, Seq<R>)> {
    if 0 <= i < rows.len() && !key_seen_before(rows, key, i) {
        Some((rows[i].0, children_of(rows, key, key(rows[i].0))))
    } else {
        None
    }
}

/// The consolidation of the rows: the entries that the rows open, in the
/// order of the rows.
pub open spec fn consolidated<L, R>(
    rows: Seq<(L, Option<R>)>,
    key: spec_fn(L) -> Seq<ValueView>,
) -> Seq<(L, Seq<R>)> {
    Seq::new(rows.len(), |i: int| i).filter_map(|i: int| group_at(rows, key, i))
}

/// The views of the entries of a consolidation.
pub open spec fn groups_view<L, R>(groups: Seq<(L, Vec<R>)>) -> Seq<(L, Seq<R>)> {
    groups.map_values(|g: (L, Vec<R>)| (g.0, g.1@))
}

/// The key by which the rows of a parent are told apart.
pub trait ModelKey<M> {
    /// The executable form of a key.
    type Type;

    /// The key of a record, as the sequence of its values.
    spec fn key_spec(&self, model: M) -> Seq<ValueView>;

    /// The values of a key.
    spec fn key_view(k: Self::Type) -> Seq<ValueView>;

    /// The key of a record.
    fn get(&self, model: &M) -> (k: Self::Type)
        ensures
            Self::key_view(k) == self.key_spec(*model),
    ;

    /// Whether two keys hold the same values.
    fn same(a: &Self::Type, b: &Self::Type) -> (r: bool)
        ensures
            r == (Self::key_view(*a) == Self::key_view(*b)),
    ;
}

/// The key of an entity with one key column.
pub struct UnitPk<M: ModelTrait>(pub <M::Entity as EntityTrait>::Column);

/// The key of an entity with two key columns.
pub struct PairPk<M: ModelTrait>(
    pub <M::Entity as EntityTrait>::Column,
    pub <M::Entity as EntityTrait>::Column,
);

/// The key of an entity with any number of key columns.
pub struct TuplePk<M: ModelTrait>(pub Vec<<M::Entity as EntityTrait>::Column>);

impl<M: ModelTrait> ModelKey<M> for UnitPk<M> {
    type Type = Value;

    open spec fn key_spec(&self, model: M) -> Seq<ValueView> {
        seq![model.fields()[self.0]]
    }

    open spec fn key_view(k: Value) -> Seq<ValueView> {
        seq![k@]
    }

    fn get(&self, model: &M) -> (k: Value) {
        model.get(self.0)
    }

    fn same(a: &Value, b: &Value) -> (r: bool) {
        let r = a.same(b);
        proof {
            if a@ != b@ {
                assert(seq![a@][0] != seq![b@][0]);
            }
        }
        r
    }
}

impl<M: ModelTrait> ModelKey<M> for PairPk<M> {
    type Type = (Value, Value);

    open spec fn key_spec(&self, model: M) -> Seq<ValueView> {
        seq![model.fields()[self.0], model.fields()[self.1]]
    }

    open spec fn key_view(k: (Value, Value)) -> Seq<ValueView> {
        seq![k.0@, k.1@]
    }

    fn get(&self, model: &M) -> (k: (Value, Value)) {
        (model.get(self.0), model.get(self.1))
    }

    fn same(a: &(Value, Value), b: &(Value, Value)) -> (r: bool) {
        let r = a.0.same(&b.0) && a.1.same(&b.1);
        proof {
            let x = seq![a.0@, a.1@];
            let y = seq![b.0@, b.1@];
            if x == y {
                assert(x[0] == y[0]);
                assert(x[1] == y[1]);
            }
        }
        r
    }
}

/// The values of the given columns of a record, in the order of the
/// columns.
pub open spec fn values_at<M: ModelTrait>(
    model: M,
    cols: Seq<<M::Entity as EntityTrait>::Column>,
) -> Seq<ValueView> {
    cols.map_values(|c: <M::Entity as EntityTrait>::Column| model.fields()[c])
}

impl<M: ModelTrait> ModelKey<M> for TuplePk<M> {
    type Type = Vec<Value>;

    open spec fn key_spec(&self, model: M) -> Seq<ValueView> {
        values_at(model, self.0@)
    }

    open spec fn key_view(k: Vec<Value>) -> Seq<ValueView> {
        views(k@)
    }

    fn get(&self, model: &M) -> (k: Vec<Value>) {
        let mut key: Vec<Value> = Vec::new();
        let mut i: usize = 0;
        while i < self.0.len()
            invariant
                i <= self.0.len(),
                key@.len() == i,
                forall|j: int| 0 <= j < i ==> (#[trigger] key@[j])@ == model.fields()[self.0@[j]],
            decreases self.0.len() - i,
        {
            key.push(model.get(self.0[i]));
            i += 1;
        }
        assert(views(key@) =~= values_at(*model, self.0@));
        key
    }

    fn same(a: &Vec<Value>, b: &Vec<Value>) -> (r: bool) {
        if a.len() != b.len() {
            assert(views(a@).len() != views(b@).len());
            return false;
        }
        let mut i: usize = 0;
        while i < a.len()
            invariant
                a.len() == b.len(),
                i <= a.len(),
                forall|j: int| 0 <= j < i ==> (#[trigger] a@[j])@ == b@[j]@,
            decreases a.len() - i,
        {
            if !a[i].same(&b[i]) {
                assert(views(a@)[i as int] != views(b@)[i as int]);
                return false;
            }
            i += 1;
        }
        assert(views(a@) =~= views(b@));
        true
    }
}

/// The values of each key of a list of keys.
pub open spec fn key_views<M, KEY: ModelKey<M>>(keys: Seq<KEY::Type>) -> Seq<Seq<ValueView>> {
    keys.map_values(|k: KEY::Type| KEY::key_view(k))
}

/// The `filter_map` of the indices below `n` holds what is kept of the
/// ascending indices `firsts`, where those are the indices of which
/// something is kept.
pub proof fn lemma_filter_map_indices<B>(n: nat, f: spec_fn(int) -> Option<B>, firsts: Seq<int>)
    requires
        forall|g: int| 0 <= g < firsts.len() ==> 0 <= #[trigger] firsts[g] < n && f(firsts[g]) is Some,
        forall|g: int, h: int| 0 <= g < h < firsts.len() ==> firsts[g] < firsts[h],
        forall|i: int| 0 <= i < n && f(i) is Some ==> firsts.contains(i),
    ensures
        Seq::new(n, |i: int| i).filter_map(f) == firsts.map_values(|i: int| f(i).unwrap()),
    decreases n,
{
    let s = Seq::new(n, |i: int| i);
    let want = firsts.map_values(|i: int| f(i).unwrap());
    if n == 0 {
        if firsts.len() > 0 {
            assert(0 <= firsts[0] < n);
        }
        assert(s.filter_map(f) =~= want);
    } else {
        let m = (n - 1) as nat;
        assert(s.drop_last() =~= Seq::new(m, |i: int| i));
        assert(s.last() == n - 1);
        if f(n - 1) is Some {
            assert(firsts.contains(n - 1));
            let p = choose|p: int| 0 <= p < firsts.len() && firsts[p] == n - 1;
            if p != firsts.len() - 1 {
                assert(firsts[p] < firsts[p + 1]);
                assert(firsts[p + 1] < n);
            }
            let rest = firsts.drop_last();
            assert forall|g: int| 0 <= g < rest.len() implies 0 <= #[trigger] rest[g] < m && f(
                rest[g],
            ) is Some by {
                assert(rest[g] == firsts[g]);
                assert(firsts[g] < firsts[p]);
            }
            assert forall|g: int, h: int| 0 <= g < h < rest.len() implies rest[g] < rest[h] by {
                assert(rest[g] == firsts[g] && rest[h] == firsts[h]);
            }
            assert forall|i: int| 0 <= i < m && f(i) is Some implies rest.contains(i) by {
                assert(firsts.contains(i));
                let q = choose|q: int| 0 <= q < firsts.len() && firsts[q] == i;
                assert(q != p);
                assert(rest[q] == i);
            }
            lemma_filter_map_indices(m, f, rest);
            assert(s.filter_map(f) =~= want);
        } else {
            assert forall|g: int| 0 <= g < firsts.len() implies 0 <= #[trigger] firsts[g] < m && f(
                firsts[g],
            ) is Some by {
                assert(0 <= firsts[g] < n && f(firsts[g]) is Some);
            }
            lemma_filter_map_indices(m, f, firsts);
        }
    }
}

/// Consolidate the rows by the given key: one entry for each distinct key,
/// in the order in which the keys were first seen, holding the parent of
/// the first row with that key and the children of all the rows with that
/// key, in the order of the rows.
///
/// The entries are found by a search over the keys seen so far: a key is
/// a list of values, which has an equality but no hash that the proofs
/// could follow, and the search keeps the order of first appearance.
pub fn consolidate_query_result_of<L, R, KEY: ModelKey<L>>(
    rows: Vec<(L, Option<R>)>,
    model_key: KEY,
) -> (out: Vec<(L, Vec<R>)>)
    ensures
        groups_view(out@) == consolidated(rows@, |l: L| model_key.key_spec(l)),
{
    let ghost all = rows@;
    let ghost key = |l: L| model_key.key_spec(l);
    let ghost mut firsts: Seq<int> = Seq::empty();
    let mut keys: Vec<KEY::Type> = Vec::new();
    let mut out: Vec<(L, Vec<R>)> = Vec::new();
    for row in it: rows
        invariant
            it.seq() == all,
            key == |l: L| model_key.key_spec(l),
            keys@.len() == out@.len(),
            firsts.len() == out@.len(),
            forall|g: int| 0 <= g < firsts.len() ==> 0 <= #[trigger] firsts[g] < it.index(),
            forall|g: int, h: int| 0 <= g < h < firsts.len() ==> firsts[g] < firsts[h],
            forall|g: int|
                0 <= g < firsts.len() ==> !key_seen_before(all, key, #[trigger] firsts[g]),
            forall|g: int|
                0 <= g < firsts.len() ==> KEY::key_view(#[trigger] keys@[g]) == key(
                    all[firsts[g]].0,
                ),
            forall|g: int| 0 <= g < firsts.len() ==> (#[trigger] out@[g]).0 == all[firsts[g]].0,
            forall|g: int|
                0 <= g < firsts.len() ==> (#[trigger] out@[g]).1@ == children_of(
                    all.take(it.index() as int),
                    key,
                    KEY::key_view(keys@[g]),
                ),
            forall|j: int|
                0 <= j < it.index() ==> key_views::<L, KEY>(keys@).contains(
                    key((#[trigger] all[j]).0),
                ),
    {
        let ghost i = it.index() as int;
        assert(row == all[i]);
        let (l, child) = row;
        let k = model_key.get(&l);
        assert(KEY::key_view(k) == key(all[i].0));
        let mut found: Option<usize> = None;
        let mut g: usize = 0;
        while g < keys.len() && found.is_none()
            invariant
                g <= keys.len(),
                found matches Some(at) ==> at < keys.len() && KEY::key_view(keys@[at as int])
                    == KEY::key_view(k),
                found is None ==> forall|h: int|
                    0 <= h < g ==> KEY::key_view(#[trigger] keys@[h]) != KEY::key_view(k),
            decreases keys.len() - g + (if found is None { 1int } else { 0int }),
        {
            if KEY::same(&keys[g], &k) {
                found = Some(g);
            } else {
                g += 1;
            }
        }
        let ghost old_out = out@;
        proof {
            assert forall|h: int| 0 <= h < firsts.len() implies children_of(
                all.take(i + 1),
                key,
                KEY::key_view(#[trigger] keys@[h]),
            ) =~= children_of(all.take(i), key, KEY::key_view(keys@[h])) + (if key(all[i].0)
                == KEY::key_view(keys@[h]) {
                match all[i].1 {
                    Some(c) => seq![c],
                    None => Seq::<R>::empty(),
                }
            } else {
                Seq::<R>::empty()
            }) by {
                let kv = KEY::key_view(keys@[h]);
                let fk = |row: (L, Option<R>)| child_for(key, kv, row);
                all.lemma_filter_map_take_succ(fk, i);
            }
        }
        match found {
            Some(at) => {
                match child {
                    Some(c) => {
                        let (parent, mut children) = out.remove(at);
                        children.push(c);
                        out.insert(at, (parent, children));
                    },
                    None => {},
                }
                proof {
                    assert forall|h: int| 0 <= h < firsts.len() && h != at implies KEY::key_view(
                        #[trigger] keys@[h],
                    ) != key(all[i].0) by {
                        if KEY::key_view(keys@[h]) == key(all[i].0) {
                            let a = firsts[h];
                            let b = firsts[at as int];
                            if h < at {
                                assert(key(all[a].0) == key(all[b].0));
                                assert(key_seen_before(all, key, b));
                            } else {
                                assert(key(all[b].0) == key(all[a].0));
                                assert(key_seen_before(all, key, a));
                            }
                        }
                    }
                    assert forall|j: int| 0 <= j < i + 1 implies key_views::<L, KEY>(
                        keys@,
                    ).contains(key((#[trigger] all[j]).0)) by {
                        if j == i {
                            assert(key_views::<L, KEY>(keys@)[at as int] == key(all[j].0));
                        }
                    }
                }
            },
            None => {
                let children = match child {
                    Some(c) => vec![c],
                    None => Vec::new(),
                };
                proof {
                    let fk = |row: (L, Option<R>)| child_for(key, KEY::key_view(k), row);
                    assert forall|j: int| 0 <= j < i implies fk(#[trigger] all.take(i)[j])
                        is None by {
                        assert(key_views::<L, KEY>(keys@).contains(key(all[j].0)));
                        let w = choose|w: int|
                            0 <= w < keys@.len() && key_views::<L, KEY>(keys@)[w] == key(
                                all[j].0,
                            );
                        assert(KEY::key_view(keys@[w]) != KEY::key_view(k));
                    }
                    crate::seq_util::lemma_filter_map_all_none(all.take(i), fk);
                    all.lemma_filter_map_take_succ(fk, i);
                    assert(children@ =~= children_of(all.take(i + 1), key, KEY::key_view(k)));
                    assert(!key_seen_before(all, key, i)) by {
                        if key_seen_before(all, key, i) {
                            let j = choose|j: int|
                                0 <= j < i && key((#[trigger] all[j]).0) == key(all[i].0);
                            assert(key_views::<L, KEY>(keys@).contains(key(all[j].0)));
                            let w = choose|w: int|
                                0 <= w < keys@.len() && key_views::<L, KEY>(keys@)[w] == key(
                                    all[j].0,
                                );
                            assert(KEY::key_view(keys@[w]) != KEY::key_view(k));
                        }
                    }
                    firsts = firsts.push(i);
                }
                let ghost old_keys = keys@;
                keys.push(k);
                out.push((l, children));
                proof {
                    assert forall|j: int| 0 <= j < i + 1 implies key_views::<L, KEY>(
                        keys@,
                    ).contains(key((#[trigger] all[j]).0)) by {
                        if j == i {
                            assert(key_views::<L, KEY>(keys@)[keys@.len() - 1] == key(all[j].0));
                        } else {
                            assert(key_views::<L, KEY>(old_keys).contains(key(all[j].0)));
                            let w = choose|w: int|
                                0 <= w < old_keys.len() && key_views::<L, KEY>(old_keys)[w]
                                    == key(all[j].0);
                            assert(key_views::<L, KEY>(keys@)[w] == key(all[j].0));
                        }
                    }
                }
            },
        }
    }
    proof {
        let n = all.len();
        assert(all.take(n as int) =~= all);
        let f = |i: int| group_at(all, key, i);
        assert forall|i: int| 0 <= i < n && f(i) is Some implies firsts.contains(i) by {
            assert(key_views::<L, KEY>(keys@).contains(key(all[i].0)));
            let w = choose|w: int|
                0 <= w < keys@.len() && key_views::<L, KEY>(keys@)[w] == key(all[i].0);
            let a = firsts[w];
            if a < i {
                assert(key(all[a].0) == key(all[i].0));
                assert(key_seen_before(all, key, i));
            } else if i < a {
                assert(key(all[i].0) == key(all[a].0));
                assert(key_seen_before(all, key, a));
            }
            assert(firsts[w] == i);
        }
        lemma_filter_map_indices(n, f, firsts);
        assert(groups_view(out@) =~= firsts.map_values(|i: int| f(i).unwrap()));
    }
    out
}

/// The key of a record by which its rows are told apart: the value of the
/// first key column for a key of arity one, of the first two for a key of
/// arity two, of all the key columns otherwise.
pub open spec fn pk_key_spec<M: ModelTrait>(model: M) -> Seq<ValueView> {
    let n = pk_arity::<M::Entity>();
    let cols = pk_columns::<M::Entity>();
    if n == 1 {
        seq![model.fields()[cols[0]]]
    } else if n == 2 {
        seq![model.fields()[cols[0]], model.fields()[cols[1]]]
    } else {
        values_at(model, cols)
    }
}

/// Consolidate the rows of a joined query by the primary key of the
/// parent: one entry for each distinct parent, in first-seen order, with
/// all of its children in the order of the rows. A parent whose rows have
/// no child has an entry without children.
pub fn consolidate_query_result<L: ModelTrait, R>(rows: Vec<(L, Option<R>)>) -> (out: Vec<
    (L, Vec<R>),
>)
    requires
        pk_arity::<L::Entity>() == 1 || pk_arity::<L::Entity>() == 2 ==> pk_arity::<L::Entity>()
            <= pk_columns::<L::Entity>().len(),
    ensures
        groups_view(out@) == consolidated(rows@, |l: L| pk_key_spec(l)),
{
    let n: usize =
        <<<L::Entity as EntityTrait>::PrimaryKey as PrimaryKeyTrait>::ValueType as PrimaryKeyArity>::arity();
    let keys = <L::Entity as EntityTrait>::PrimaryKey::iter();
    let ghost cols = pk_columns::<L::Entity>();
    let ghost want = |l: L| pk_key_spec(l);
    if n == 1 {
        let col = keys[0].into_column();
        assert(col == cols[0]);
        let model_key: UnitPk<L> = UnitPk(col);
        assert((|l: L| model_key.key_spec(l)) =~= want);
        consolidate_query_result_of(rows, model_key)
    } else if n == 2 {
        let col1 = keys[0].into_column();
        let col2 = keys[1].into_column();
        assert(col1 == cols[0]);
        assert(col2 == cols[1]);
        let model_key: PairPk<L> = PairPk(col1, col2);
        assert((|l: L| model_key.key_spec(l)) =~= want);
        consolidate_query_result_of(rows, model_key)
    } else {
        let mut key_cols: Vec<<L::Entity as EntityTrait>::Column> = Vec::new();
        let mut i: usize = 0;
        while i < keys.len()
            invariant
                i <= keys.len(),
                keys@ == <L::Entity as EntityTrait>::PrimaryKey::spec_iter(),
                key_cols@.len() == i,
                forall|j: int| 0 <= j < i ==> #[trigger] key_cols@[j] == keys@[j].spec_column(),
            decreases keys.len() - i,
        {
            key_cols.push(keys[i].into_column());
            i += 1;
        }
        assert(key_cols@ =~= cols);
        let model_key: TuplePk<L> = TuplePk(key_cols);
        assert((|l: L| model_key.key_spec(l)) =~= want);
        consolidate_query_result_of(rows, model_key)
    }
}

/// Whether two records have the same primary key: the same value in every
/// key column.
pub open spec fn same_pk<M: ModelTrait>(a: M, b: M) -> bool {
    values_at(a, pk_columns::<M::Entity>()) == values_at(b, pk_columns::<M::Entity>())
}

/// The consolidation of rows that come ordered by parent: a row joins the
/// entry before it if it has a child and the parent of that entry has its
/// primary key; any other row opens an entry.
pub open spec fn consolidated_in_order<L: ModelTrait, R>(rows: Seq<(L, Option<R>)>) -> Seq<
    (L, Seq<R>),
>
    decreases rows.len(),
{
    if rows.len() == 0 {
        Seq::empty()
    } else {
        let before = consolidated_in_order(rows.drop_last());
        let row = rows.last();
        if before.len() > 0 && row.1 is Some && same_pk(row.0, before.last().0) {
            before.drop_last().push((before.last().0, before.last().1.push(row.1.unwrap())))
        } else {
            before.push(
                (
                    row.0,
                    match row.1 {
                        Some(c) => seq![c],
                        None => Seq::empty(),
                    },
                ),
            )
        }
    }
}

/// Whether two records have the same primary key.
pub fn has_same_pk<M: ModelTrait>(a: &M, b: &M) -> (r: bool)
    ensures
        r == same_pk(*a, *b),
{
    let keys = <M::Entity as EntityTrait>::PrimaryKey::iter();
    let ghost cols = pk_columns::<M::Entity>();
    let mut i: usize = 0;
    while i < keys.len()
        invariant
            i <= keys.len(),
            keys@ == <M::Entity as EntityTrait>::PrimaryKey::spec_iter(),
            cols == pk_columns::<M::Entity>(),
            cols.len() == keys@.len(),
            forall|j: int| 0 <= j < i ==> a.fields()[#[trigger] cols[j]] == b.fields()[cols[j]],
        decreases keys.len() - i,
    {
        let col = keys[i].into_column();
        assert(col == cols[i as int]);
        let val = a.get(col);
        let last_val = b.get(col);
        if !val.same(&last_val) {
            assert(values_at(*a, cols)[i as int] != values_at(*b, cols)[i as int]);
            return false;
        }
        i += 1;
    }
    assert(values_at(*a, cols) =~= values_at(*b, cols));
    true
}

/// Consolidate rows that come ordered by parent. Only neighbouring rows of
/// a parent are merged: rows of one parent that lie apart stay apart, and a
/// row without a child always opens an entry.
pub fn consolidate_query_result_of_ordered_rows<L: ModelTrait, R>(
    rows: Vec<(L, Option<R>)>,
) -> (acc: Vec<(L, Vec<R>)>)
    ensures
        groups_view(acc@) == consolidated_in_order(rows@),
{
    let ghost all = rows@;
    let mut acc: Vec<(L, Vec<R>)> = Vec::new();
    for row in it: rows
        invariant
            it.seq() == all,
            groups_view(acc@) == consolidated_in_order(all.take(it.index() as int)),
    {
        let ghost i = it.index() as int;
        assert(row == all[i]);
        proof {
            assert(all.take(i + 1).drop_last() =~= all.take(i));
            assert(all.take(i + 1).last() == all[i]);
        }
        let ghost before = groups_view(acc@);
        let (l, r) = row;
        let joins = match acc.pop() {
            Some((last_l, last_r)) => {
                assert(before.last().0 == last_l);
                let same_l = has_same_pk(&l, &last_l);
                acc.push((last_l, last_r));
                assert(groups_view(acc@) =~= before);
                same_l && r.is_some()
            },
            None => {
                assert(before.len() == 0);
                false
            },
        };
        proof {
            let next = all.take(i + 1);
            assert(next.drop_last() == all.take(i));
            assert(before == consolidated_in_order(next.drop_last()));
            assert(joins == (before.len() > 0 && all[i].1 is Some && same_pk(
                all[i].0,
                before.last().0,
            )));
            assert(consolidated_in_order(next) == if joins {
                before.drop_last().push(
                    (before.last().0, before.last().1.push(all[i].1.unwrap())),
                )
            } else {
                before.push(
                    (
                        all[i].0,
                        match all[i].1 {
                            Some(c) => seq![c],
                            None => Seq::empty(),
                        },
                    ),
                )
            });
        }
        if joins {
            match (acc.pop(), r) {
                (Some((last_l, last_r)), Some(child)) => {
                    let mut children = last_r;
                    children.push(child);
                    acc.push((last_l, children));
                    assert(groups_view(acc@) =~= before.drop_last().push(
                        (before.last().0, before.last().1.push(child)),
                    ));
                    assert(groups_view(acc@) == consolidated_in_order(all.take(i + 1)));
                },
                _ => {
                    assert(false);
                },
            }
        } else {
            let children = match r {
                Some(child) => vec![child],
                None => Vec::new(),
            };
            assert(children@ =~= match all[i].1 {
                Some(c) => seq![c],
                None => Seq::<R>::empty(),
            });
            acc.push((l, children));
            assert(groups_view(acc@) =~= before.push((l, children@)));
            assert(groups_view(acc@) == consolidated_in_order(all.take(i + 1)));
        }
    }
    assert(all.take(all.len() as int) =~= all);
    acc
}

} // verus!
