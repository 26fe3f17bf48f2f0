//! The order in which collected migrations are applied.

use crate::module::{Migration, ModuleDescriptor};
use crate::text::{
    lemma_lex_asymmetric, lemma_lex_connected, lemma_lex_irreflexive, lemma_lex_transitive,
    lex_less, str_equal, str_less,
};
use vstd::prelude::*;

verus! {

/// A collected migration as contracts see it: the name of the module that
/// contributes it, and the migration.
pub type Entry = (Seq<char>, Migration);

/// What a migration is ordered by: its module's name, then its id.
pub type Key = (Seq<char>, Seq<char>);

/// The key of a collected migration.
pub open spec fn key_of(entry: Entry) -> Key {
    (entry.0, entry.1.id@)
}

/// Whether `a` is applied strictly before `b`: by module name, and by id under
/// one module name.
pub open spec fn key_less(a: Key, b: Key) -> bool {
    lex_less(a.0, b.0) || (a.0 == b.0 && lex_less(a.1, b.1))
}

/// The collected migrations as contracts see them.
pub open spec fn entries_of(collected: Seq<(String, Migration)>) -> Seq<Entry> {
    Seq::new(collected.len(), |i: int| (collected[i].0@, collected[i].1))
}

/// The migrations of one module, each with the module's name, in the order in
/// which the module declares them.
pub open spec fn contributed(module: ModuleDescriptor) -> Seq<Entry> {
    Seq::new(module.migrations@.len(), |i: int| (module.name@, module.migrations@[i]))
}

/// The migrations of `modules` in the order of collection: module after module,
/// each module's migrations in the order in which it declares them.
pub open spec fn gathered(modules: Seq<ModuleDescriptor>) -> Seq<Entry>
    decreases modules.len(),
{
    if modules.len() == 0 {
        Seq::empty()
    } else {
        gathered(modules.drop_last()) + contributed(modules.last())
    }
}

/// No entry is applied after one that follows it.
pub open spec fn in_apply_order(entries: Seq<Entry>) -> bool {
    forall|i: int, j: int|
        0 <= i < j < entries.len() ==> !key_less(
            key_of(#[trigger] entries[j]),
            key_of(#[trigger] entries[i]),
        )
}

/// The entries of `entries` whose key is `key`, in their order.
pub open spec fn with_key(entries: Seq<Entry>, key: Key) -> Seq<Entry>
    decreases entries.len(),
{
    if entries.len() == 0 {
        Seq::empty()
    } else if key_of(entries.last()) == key {
        with_key(entries.drop_last(), key).push(entries.last())
    } else {
        with_key(entries.drop_last(), key)
    }
}

/// Whether `ordered` is `collected` put into apply order: it is in apply order,
/// and under each key it holds the entries that `collected` holds, in the
/// order in which they were collected.
pub open spec fn is_apply_order_of(ordered: Seq<Entry>, collected: Seq<Entry>) -> bool {
    &&& in_apply_order(ordered)
    &&& ordered.len() == collected.len()
    &&& forall|key: Key| #[trigger] with_key(ordered, key) == with_key(collected, key)
}

/// No key is before itself.
pub proof fn lemma_key_irreflexive(a: Key)
    ensures
        !key_less(a, a),
{
    lemma_lex_irreflexive(a.0);
    lemma_lex_irreflexive(a.1);
}

/// Of two keys at most one is before the other.
pub proof fn lemma_key_asymmetric(a: Key, b: Key)
    requires
        key_less(a, b),
    ensures
        !key_less(b, a),
{
    lemma_lex_irreflexive(a.0);
    if lex_less(a.0, b.0) {
        lemma_lex_asymmetric(a.0, b.0);
    } else {
        lemma_lex_asymmetric(a.1, b.1);
    }
}

/// A key before another is before the keys that the other is before.
pub proof fn lemma_key_transitive(a: Key, b: Key, c: Key)
    requires
        key_less(a, b),
        key_less(b, c),
    ensures
        key_less(a, c),
{
    if lex_less(a.0, b.0) && lex_less(b.0, c.0) {
        lemma_lex_transitive(a.0, b.0, c.0);
    } else if a.0 == b.0 && b.0 == c.0 {
        lemma_lex_transitive(a.1, b.1, c.1);
    }
}

/// Two different keys are ordered one way or the other.
pub proof fn lemma_key_connected(a: Key, b: Key)
    ensures
        a == b || key_less(a, b) || key_less(b, a),
{
    lemma_lex_connected(a.0, b.0);
    lemma_lex_connected(a.1, b.1);
}

/// A key that is not after `b`, where `b` is not after `c`, is not after `c`.
pub proof fn lemma_key_not_after(a: Key, b: Key, c: Key)
    requires
        !key_less(b, a),
        !key_less(c, b),
    ensures
        !key_less(c, a),
{
    if key_less(c, a) {
        lemma_key_connected(a, b);
        lemma_key_connected(b, c);
        if a == b {
        } else if b == c {
        } else {
            lemma_key_transitive(a, b, c);
            lemma_key_asymmetric(a, c);
        }
    }
}

/// Selecting by key goes through concatenation.
pub proof fn lemma_with_key_concat(a: Seq<Entry>, b: Seq<Entry>, key: Key)
    ensures
        with_key(a + b, key) == with_key(a, key) + with_key(b, key),
    decreases b.len(),
{
    if b.len() == 0 {
        assert(a + b =~= a);
        assert(with_key(a, key) + with_key(b, key) =~= with_key(a, key));
    } else {
        assert((a + b).drop_last() =~= a + b.drop_last());
        assert((a + b).last() == b.last());
        lemma_with_key_concat(a, b.drop_last(), key);
        if key_of(b.last()) == key {
            assert(with_key(a, key) + with_key(b.drop_last(), key).push(b.last()) =~= (with_key(
                a,
                key,
            ) + with_key(b.drop_last(), key)).push(b.last()));
        }
    }
}

/// Entries of which none has the key select to nothing.
pub proof fn lemma_with_key_absent(entries: Seq<Entry>, key: Key)
    requires
        forall|i: int| 0 <= i < entries.len() ==> key_of(#[trigger] entries[i]) != key,
    ensures
        with_key(entries, key) == Seq::<Entry>::empty(),
    decreases entries.len(),
{
    if entries.len() > 0 {
        assert(key_of(entries.last()) != key);
        assert forall|i: int| 0 <= i < entries.drop_last().len() implies key_of(
            #[trigger] entries.drop_last()[i],
        ) != key by {
            assert(entries.drop_last()[i] == entries[i]);
        }
        lemma_with_key_absent(entries.drop_last(), key);
    }
}

/// Putting `entry` at `at`, in front of entries that all have other keys, adds
/// it behind the entries of its own key and changes nothing under other keys.
pub proof fn lemma_with_key_insert(entries: Seq<Entry>, at: int, entry: Entry, key: Key)
    requires
        0 <= at <= entries.len(),
        forall|i: int| at <= i < entries.len() ==> key_of(#[trigger] entries[i]) != key_of(entry),
    ensures
        with_key(entries.insert(at, entry), key) == if key_of(entry) == key {
            with_key(entries, key).push(entry)
        } else {
            with_key(entries, key)
        },
{
    let front = entries.take(at);
    let back = entries.skip(at);
    let one = seq![entry];
    assert(entries.insert(at, entry) =~= front + one + back);
    assert(entries =~= front + back);
    lemma_with_key_concat(front + one, back, key);
    lemma_with_key_concat(front, one, key);
    lemma_with_key_concat(front, back, key);
    assert(one.drop_last() =~= Seq::<Entry>::empty());
    assert(one.last() == entry);
    assert(with_key(one.drop_last(), key) =~= Seq::<Entry>::empty());
    assert(with_key(one, key) =~= if key_of(entry) == key {
        one
    } else {
        Seq::<Entry>::empty()
    });
    if key_of(entry) == key {
        assert forall|i: int| 0 <= i < back.len() implies key_of(#[trigger] back[i]) != key by {
            assert(back[i] == entries[at + i]);
        }
        lemma_with_key_absent(back, key);
        assert(with_key(front, key) + one + Seq::<Entry>::empty() =~= (with_key(front, key)
            + Seq::<Entry>::empty()).push(entry));
    } else {
        assert(with_key(front, key) + Seq::<Entry>::empty() + with_key(back, key) =~= with_key(
            front,
            key,
        ) + with_key(back, key));
    }
}

/// Collecting from two runs of modules, one after the other, is collecting from
/// their concatenation.
pub proof fn lemma_gathered_concat(a: Seq<ModuleDescriptor>, b: Seq<ModuleDescriptor>)
    ensures
        gathered(a + b) == gathered(a) + gathered(b),
    decreases b.len(),
{
    if b.len() == 0 {
        assert(a + b =~= a);
        assert(gathered(a) + gathered(b) =~= gathered(a));
    } else {
        assert((a + b).drop_last() =~= a + b.drop_last());
        assert((a + b).last() == b.last());
        lemma_gathered_concat(a, b.drop_last());
        assert(gathered(a) + (gathered(b.drop_last()) + contributed(b.last())) =~= (gathered(a)
            + gathered(b.drop_last())) + contributed(b.last()));
    }
}

/// Appends to `collected` the migrations of `modules`, module after module,
/// each with its module's name.
pub fn gather(modules: &Vec<ModuleDescriptor>, collected: &mut Vec<(String, Migration)>)
    ensures
        entries_of(final(collected)@) == entries_of(old(collected)@) + gathered(modules@),
{
    let ghost start = entries_of(collected@);
    let mut m: usize = 0;
    assert(modules@.take(0) =~= Seq::<ModuleDescriptor>::empty());
    assert(start + gathered(modules@.take(0)) =~= start);
    while m < modules.len()
        invariant
            m <= modules@.len(),
            entries_of(collected@) == start + gathered(modules@.take(m as int)),
        decreases modules.len() - m,
    {
        let module = &modules[m];
        let ghost so_far = entries_of(collected@);
        let mut k: usize = 0;
        assert(so_far + contributed(*module).take(0) =~= so_far);
        while k < module.migrations.len()
            invariant
                k <= module.migrations@.len(),
                entries_of(collected@) == so_far + contributed(*module).take(k as int),
            decreases module.migrations.len() - k,
        {
            let ghost prior = entries_of(collected@);
            let name = module.name.clone();
            let migration = module.migrations[k].clone();
            collected.push((name, migration));
            proof {
                let added = contributed(*module)[k as int];
                assert(added == (module.name@, module.migrations@[k as int]));
                assert(entries_of(collected@) =~= prior.push(added));
                assert(contributed(*module).take(k as int + 1) =~= contributed(*module).take(
                    k as int,
                ).push(added));
                assert(prior.push(added) =~= so_far + contributed(*module).take(k as int + 1));
            }
            k += 1;
        }
        proof {
            assert(contributed(*module).take(k as int) =~= contributed(*module));
            let upto = modules@.take(m as int + 1);
            assert(upto.drop_last() =~= modules@.take(m as int));
            assert(upto.last() == *module);
            assert(start + (gathered(modules@.take(m as int)) + contributed(*module)) =~= (start
                + gathered(modules@.take(m as int))) + contributed(*module));
        }
        m += 1;
    }
    assert(modules@.take(modules@.len() as int) =~= modules@);
}

/// Whether `a` is applied strictly before `b`.
pub fn entry_less(a: &(String, Migration), b: &(String, Migration)) -> (less: bool)
    ensures
        less == key_less((a.0@, a.1.id@), (b.0@, b.1.id@)),
{
    if str_less(a.0.as_str(), b.0.as_str()) {
        true
    } else if str_equal(a.0.as_str(), b.0.as_str()) {
        str_less(a.1.id, b.1.id)
    } else {
        false
    }
}

/// Puts collected migrations into apply order: by module name, then by
/// migration id. Entries of one key keep the order in which they came.
pub fn sort_migrations(collected: Vec<(String, Migration)>) -> (ordered: Vec<(String, Migration)>)
    ensures
        is_apply_order_of(entries_of(ordered@), entries_of(collected@)),
{
    let mut ordered: Vec<(String, Migration)> = Vec::new();
    let mut rest = collected;
    let ghost source = entries_of(collected@);
    let ghost mut taken: int = 0;
    assert(source.take(0) =~= Seq::<Entry>::empty());
    assert(entries_of(ordered@) =~= Seq::<Entry>::empty());
    // Entries leave `rest` from its front, so that equal keys keep their order.
    // `Vec::remove(0)` shifts the tail; the lists are short.
    while rest.len() > 0
        invariant
            0 <= taken <= source.len(),
            entries_of(rest@) == source.skip(taken),
            in_apply_order(entries_of(ordered@)),
            ordered@.len() == taken,
            forall|key: Key| #[trigger]
                with_key(entries_of(ordered@), key) == with_key(source.take(taken), key),
        decreases rest.len(),
    {
        let ghost waiting = rest@;
        let entry = rest.remove(0);
        let ghost item: Entry = (entry.0@, entry.1);
        let ghost before = entries_of(ordered@);
        proof {
            assert(entries_of(waiting).len() == source.skip(taken).len());
            assert(taken < source.len());
            assert(item == entries_of(waiting)[0]);
            assert(item == source.skip(taken)[0]);
            assert forall|k: int| 0 <= k < rest@.len() implies entries_of(rest@)[k] == source.skip(
                taken + 1,
            )[k] by {
                assert(rest@[k] == waiting[k + 1]);
                assert(entries_of(waiting)[k + 1] == source.skip(taken)[k + 1]);
            }
            assert(entries_of(rest@) =~= source.skip(taken + 1));
        }
        let mut at: usize = ordered.len();
        while at > 0 && entry_less(&entry, &ordered[at - 1])
            invariant
                at <= ordered@.len(),
                before == entries_of(ordered@),
                item == (entry.0@, entry.1),
                forall|i: int|
                    at <= i < before.len() ==> key_less(key_of(item), key_of(#[trigger] before[i])),
            decreases at,
        {
            at -= 1;
        }
        ordered.insert(at, entry);
        proof {
            let after = entries_of(ordered@);
            assert(after =~= before.insert(at as int, item));
            assert forall|i: int, j: int| 0 <= i < j < after.len() implies !key_less(
                key_of(#[trigger] after[j]),
                key_of(#[trigger] after[i]),
            ) by {
                if j == at {
                    // after[i] is an entry before the place of insertion
                    assert(after[i] == before[i]);
                    if at > 0 {
                        assert(!key_less(key_of(item), key_of(before[at - 1])));
                        if i < at - 1 {
                            assert(!key_less(key_of(before[at - 1]), key_of(before[i])));
                            lemma_key_not_after(
                                key_of(before[i]),
                                key_of(before[at - 1]),
                                key_of(item),
                            );
                        }
                    }
                } else if i == at {
                    assert(after[j] == before[j - 1]);
                    assert(key_less(key_of(item), key_of(before[j - 1])));
                    lemma_key_asymmetric(key_of(item), key_of(before[j - 1]));
                } else {
                    let bi = if i < at { i } else { i - 1 };
                    let bj = if j < at { j } else { j - 1 };
                    assert(after[i] == before[bi]);
                    assert(after[j] == before[bj]);
                    assert(!key_less(key_of(before[bj]), key_of(before[bi])));
                }
            }
            assert forall|key: Key| #[trigger]
                with_key(after, key) == with_key(source.take(taken + 1), key) by {
                assert forall|i: int| at <= i < before.len() implies key_of(
                    #[trigger] before[i],
                ) != key_of(item) by {
                    lemma_key_irreflexive(key_of(item));
                }
                lemma_with_key_insert(before, at as int, item, key);
                assert(source.take(taken + 1).drop_last() =~= source.take(taken));
                assert(source.take(taken + 1).last() == item);
                assert(with_key(before, key) == with_key(source.take(taken), key));
            }
            taken = taken + 1;
        }
    }
    proof {
        assert(entries_of(rest@).len() == 0);
        assert(source.take(taken) =~= source);
    }
    ordered
}

/// An entry of key `key` is among the entries selected by `key`.
pub proof fn lemma_with_key_present(entries: Seq<Entry>, key: Key, at: int)
    requires
        0 <= at < entries.len(),
        key_of(entries[at]) == key,
    ensures
        with_key(entries, key).len() > 0,
    decreases entries.len(),
{
    if at < entries.len() - 1 {
        assert(entries.drop_last()[at] == entries[at]);
        lemma_with_key_present(entries.drop_last(), key, at);
    }
}

/// Where some entry is selected by `key`, an entry has that key.
pub proof fn lemma_with_key_witness(entries: Seq<Entry>, key: Key) -> (at: int)
    requires
        with_key(entries, key).len() > 0,
    ensures
        0 <= at < entries.len(),
        key_of(entries[at]) == key,
    decreases entries.len(),
{
    if key_of(entries.last()) == key {
        entries.len() - 1
    } else {
        let at = lemma_with_key_witness(entries.drop_last(), key);
        assert(entries.drop_last()[at] == entries[at]);
        at
    }
}

/// Apply order is determined: two sequences in apply order that hold the same
/// entries under every key, in the same order under each, are one sequence.
pub proof fn lemma_apply_order_determined(a: Seq<Entry>, b: Seq<Entry>)
    requires
        in_apply_order(a),
        in_apply_order(b),
        forall|key: Key| #[trigger] with_key(a, key) == with_key(b, key),
    ensures
        a == b,
    decreases a.len(),
{
    if a.len() == 0 {
        if b.len() > 0 {
            lemma_with_key_present(b, key_of(b[0]), 0);
            assert(with_key(a, key_of(b[0])) == with_key(b, key_of(b[0])));
        }
        assert(a =~= b);
    } else {
        let ka = key_of(a.last());
        lemma_with_key_present(a, ka, a.len() - 1);
        assert(with_key(a, ka) == with_key(b, ka));
        let in_b = lemma_with_key_witness(b, ka);
        let kb = key_of(b.last());
        lemma_with_key_present(b, kb, b.len() - 1);
        assert(with_key(a, kb) == with_key(b, kb));
        let in_a = lemma_with_key_witness(a, kb);
        // The last key of each is the greatest key of both.
        assert(!key_less(ka, kb)) by {
            if in_a < a.len() - 1 {
                assert(!key_less(key_of(a[a.len() - 1]), key_of(a[in_a])));
            } else {
                lemma_key_irreflexive(ka);
            }
        }
        assert(!key_less(kb, ka)) by {
            if in_b < b.len() - 1 {
                assert(!key_less(key_of(b[b.len() - 1]), key_of(b[in_b])));
            } else {
                lemma_key_irreflexive(kb);
            }
        }
        lemma_key_connected(ka, kb);
        assert(ka == kb);
        assert(with_key(a, ka).last() == a.last());
        assert(with_key(b, ka).last() == b.last());
        assert(a.last() == b.last());
        let shorter_a = a.drop_last();
        let shorter_b = b.drop_last();
        assert forall|key: Key| #[trigger]
            with_key(shorter_a, key) == with_key(shorter_b, key) by {
            assert(with_key(a, key) == with_key(b, key));
            if key == ka {
                assert(with_key(shorter_a, key) =~= with_key(a, key).drop_last());
                assert(with_key(shorter_b, key) =~= with_key(b, key).drop_last());
            }
        }
        assert(in_apply_order(shorter_a)) by {
            assert forall|i: int, j: int| 0 <= i < j < shorter_a.len() implies !key_less(
                key_of(#[trigger] shorter_a[j]),
                key_of(#[trigger] shorter_a[i]),
            ) by {
                assert(shorter_a[i] == a[i] && shorter_a[j] == a[j]);
            }
        }
        assert(in_apply_order(shorter_b)) by {
            assert forall|i: int, j: int| 0 <= i < j < shorter_b.len() implies !key_less(
                key_of(#[trigger] shorter_b[j]),
                key_of(#[trigger] shorter_b[i]),
            ) by {
                assert(shorter_b[i] == b[i] && shorter_b[j] == b[j]);
            }
        }
        lemma_apply_order_determined(shorter_a, shorter_b);
        assert(a =~= shorter_a.push(a.last()));
        assert(b =~= shorter_b.push(b.last()));
    }
}

/// Whether no two modules of `modules` bear one name.
pub open spec fn names_differ(modules: Seq<ModuleDescriptor>) -> bool {
    forall|i: int, j: int|
        0 <= i < j < modules.len() ==> (#[trigger] modules[i]).name@ != (
        #[trigger] modules[j]).name@
}

/// The entries that a module contributes under a key whose name is not the
/// module's are none.
pub proof fn lemma_contributed_other_name(module: ModuleDescriptor, key: Key)
    requires
        module.name@ != key.0,
    ensures
        with_key(contributed(module), key) == Seq::<Entry>::empty(),
{
    lemma_with_key_absent(contributed(module), key);
}

/// Among modules of different names, the entries collected under a key are
/// those that the module of that name contributes under it.
pub proof fn lemma_gathered_by_name(modules: Seq<ModuleDescriptor>, key: Key, at: int)
    requires
        names_differ(modules),
        0 <= at < modules.len(),
        modules[at].name@ == key.0,
    ensures
        with_key(gathered(modules), key) == with_key(contributed(modules[at]), key),
    decreases modules.len(),
{
    let earlier = modules.drop_last();
    let last = modules.last();
    lemma_with_key_concat(gathered(earlier), contributed(last), key);
    assert(names_differ(earlier)) by {
        assert forall|i: int, j: int| 0 <= i < j < earlier.len() implies (
        #[trigger] earlier[i]).name@ != (#[trigger] earlier[j]).name@ by {
            assert(earlier[i] == modules[i] && earlier[j] == modules[j]);
        }
    }
    if at == modules.len() - 1 {
        assert forall|i: int| 0 <= i < earlier.len() implies (#[trigger] earlier[i]).name@
            != key.0 by {
            assert(earlier[i] == modules[i]);
        }
        lemma_gathered_no_name(earlier, key);
        assert(Seq::<Entry>::empty() + with_key(contributed(last), key) =~= with_key(
            contributed(last),
            key,
        ));
    } else {
        assert(earlier[at] == modules[at]);
        lemma_gathered_by_name(earlier, key, at);
        assert(last.name@ != key.0) by {
            assert(modules[at].name@ != modules[modules.len() - 1].name@);
        }
        lemma_contributed_other_name(last, key);
        assert(with_key(contributed(modules[at]), key) + Seq::<Entry>::empty() =~= with_key(
            contributed(modules[at]),
            key,
        ));
    }
}

/// Where no module bears the name of a key, nothing is collected under it.
pub proof fn lemma_gathered_no_name(modules: Seq<ModuleDescriptor>, key: Key)
    requires
        forall|i: int| 0 <= i < modules.len() ==> (#[trigger] modules[i]).name@ != key.0,
    ensures
        with_key(gathered(modules), key) == Seq::<Entry>::empty(),
    decreases modules.len(),
{
    if modules.len() > 0 {
        let earlier = modules.drop_last();
        assert forall|i: int| 0 <= i < earlier.len() implies (#[trigger] earlier[i]).name@
            != key.0 by {
            assert(earlier[i] == modules[i]);
        }
        lemma_gathered_no_name(earlier, key);
        assert(modules.last() == modules[modules.len() - 1]);
        lemma_contributed_other_name(modules.last(), key);
        lemma_with_key_concat(gathered(earlier), contributed(modules.last()), key);
        assert(Seq::<Entry>::empty() + Seq::<Entry>::empty() =~= Seq::<Entry>::empty());
    }
}

/// The apply order does not depend on the order of registration: two
/// collections of the same modules, no two of them of one name, have one apply
/// order, however the modules stand in each collection.
pub proof fn lemma_apply_order_ignores_registration_order(
    first: Seq<ModuleDescriptor>,
    second: Seq<ModuleDescriptor>,
    ordered_first: Seq<Entry>,
    ordered_second: Seq<Entry>,
)
    requires
        names_differ(first),
        names_differ(second),
        forall|module: ModuleDescriptor| first.contains(module) <==> second.contains(module),
        is_apply_order_of(ordered_first, gathered(first)),
        is_apply_order_of(ordered_second, gathered(second)),
    ensures
        ordered_first == ordered_second,
{
    assert forall|key: Key| #[trigger]
        with_key(ordered_first, key) == with_key(ordered_second, key) by {
        assert(with_key(ordered_first, key) == with_key(gathered(first), key));
        assert(with_key(ordered_second, key) == with_key(gathered(second), key));
        if exists|i: int| 0 <= i < first.len() && (#[trigger] first[i]).name@ == key.0 {
            let i = choose|i: int| 0 <= i < first.len() && (#[trigger] first[i]).name@ == key.0;
            assert(first.contains(first[i]));
            assert(second.contains(first[i]));
            let j = choose|j: int| 0 <= j < second.len() && second[j] == first[i];
            lemma_gathered_by_name(first, key, i);
            lemma_gathered_by_name(second, key, j);
        } else {
            assert forall|j: int| 0 <= j < second.len() implies (#[trigger] second[j]).name@
                != key.0 by {
                assert(second.contains(second[j]));
                assert(first.contains(second[j]));
                let i = choose|i: int| 0 <= i < first.len() && first[i] == second[j];
                assert(first[i].name@ != key.0);
            }
            lemma_gathered_no_name(first, key);
            lemma_gathered_no_name(second, key);
        }
    }
    lemma_apply_order_determined(ordered_first, ordered_second);
}

} // verus!
