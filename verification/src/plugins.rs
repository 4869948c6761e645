//! The plugin list as mathematics: what it means for a plugin to be enabled,
//! what enabling, disabling and toggling do to the list, and the laws that
//! follow.

use vstd::prelude::*;

verus! {

/// The names held by a vector of strings, in order.
pub open spec fn names(plugins: Seq<String>) -> Seq<Seq<char>> {
    Seq::new(plugins.len(), |i: int| plugins[i]@)
}

/// A plugin is enabled when its name occurs in the list.
pub open spec fn is_enabled(plugins: Seq<Seq<char>>, name: Seq<char>) -> bool {
    plugins.contains(name)
}

/// The list after enabling `name`: unchanged where it is listed, else with
/// `name` at the end.
pub open spec fn enabled(plugins: Seq<Seq<char>>, name: Seq<char>) -> Seq<Seq<char>> {
    if plugins.contains(name) {
        plugins
    } else {
        plugins.push(name)
    }
}

/// The list after disabling `name`: without the first occurrence of `name`,
/// unchanged where there is none.
pub open spec fn disabled(plugins: Seq<Seq<char>>, name: Seq<char>) -> Seq<Seq<char>> {
    plugins.remove_value(name)
}

/// The list after toggling `name`: disabled where it is listed, else enabled.
pub open spec fn toggled(plugins: Seq<Seq<char>>, name: Seq<char>) -> Seq<Seq<char>> {
    if plugins.contains(name) {
        disabled(plugins, name)
    } else {
        enabled(plugins, name)
    }
}

/// No two places of the list hold `name`.
pub open spec fn at_most_once(plugins: Seq<Seq<char>>, name: Seq<char>) -> bool {
    forall|i: int, j: int|
        0 <= i < plugins.len() && 0 <= j < plugins.len() && plugins[i] == name && plugins[j]
            == name ==> i == j
}

/// The test that a listed name is another name than `name`.
pub open spec fn is_other(name: Seq<char>) -> spec_fn(Seq<char>) -> bool {
    |listed: Seq<char>| listed != name
}

/// The list without every occurrence of `name`: the other names, in their
/// order.
pub open spec fn others(plugins: Seq<Seq<char>>, name: Seq<char>) -> Seq<Seq<char>> {
    plugins.filter(is_other(name))
}

/// The first place at which `name` stands in the list, if it stands in it.
pub fn position(plugins: &Vec<String>, name: &str) -> (found: Option<usize>)
    ensures
        match found {
            Some(i) => i < plugins.len() && names(plugins@).contains(name@) && names(
                plugins@,
            ).index_of_first(name@) == Some(i as int),
            None => !names(plugins@).contains(name@),
        },
{
    let wanted = name.to_owned();
    let mut i: usize = 0;
    while i < plugins.len()
        invariant
            i <= plugins.len(),
            wanted@ == name@,
            forall|j: int| 0 <= j < i ==> names(plugins@)[j] != name@,
        decreases plugins.len() - i,
    {
        if plugins[i] == wanted {
            proof {
                lemma_first_index(names(plugins@), name@, i as int);
            }
            return Some(i);
        }
        i += 1;
    }
    None
}

/// The first index of `name` is the one index that holds it with no earlier
/// index holding it.
pub proof fn lemma_first_index(plugins: Seq<Seq<char>>, name: Seq<char>, i: int)
    requires
        0 <= i < plugins.len(),
        plugins[i] == name,
        forall|j: int| 0 <= j < i ==> plugins[j] != name,
    ensures
        plugins.contains(name),
        plugins.index_of_first(name) == Some(i),
{
    plugins.index_of_first_ensures(name);
    assert(plugins.contains(name));
}

/// Disabling a name that is not listed changes nothing.
pub proof fn lemma_disabled_absent(plugins: Seq<Seq<char>>, name: Seq<char>)
    requires
        !plugins.contains(name),
    ensures
        disabled(plugins, name) == plugins,
{
    plugins.index_of_first_ensures(name);
}

/// Disabling a name that is listed once leaves a list without it.
pub proof fn lemma_disabled_once(plugins: Seq<Seq<char>>, name: Seq<char>)
    requires
        at_most_once(plugins, name),
    ensures
        !disabled(plugins, name).contains(name),
{
    plugins.index_of_first_ensures(name);
    match plugins.index_of_first(name) {
        Some(i) => {
            let rest = plugins.remove(i);
            assert forall|k: int| 0 <= k < rest.len() implies rest[k] != name by {
                if k < i {
                    assert(rest[k] == plugins[k]);
                } else {
                    assert(rest[k] == plugins[k + 1]);
                }
            }
        },
        None => {},
    }
}

/// Disabling a name just pushed onto a list that lacked it gives the list
/// back.
pub proof fn lemma_disabled_after_push(plugins: Seq<Seq<char>>, name: Seq<char>)
    requires
        !plugins.contains(name),
    ensures
        disabled(plugins.push(name), name) == plugins,
{
    let longer = plugins.push(name);
    assert forall|j: int| 0 <= j < plugins.len() implies longer[j] != name by {
        assert(longer[j] == plugins[j]);
    }
    lemma_first_index(longer, name, plugins.len() as int);
    assert(longer.remove(plugins.len() as int) =~= plugins);
}

/// Enabling `name` leaves the other names as they stand.
pub proof fn lemma_enabled_others(plugins: Seq<Seq<char>>, name: Seq<char>)
    ensures
        others(enabled(plugins, name), name) == others(plugins, name),
{
    reveal(Seq::filter);
    assert(plugins.push(name).drop_last() =~= plugins);
}

/// Disabling `name` leaves the other names as they stand.
pub proof fn lemma_disabled_others(plugins: Seq<Seq<char>>, name: Seq<char>)
    ensures
        others(disabled(plugins, name), name) == others(plugins, name),
{
    let keep = is_other(name);
    plugins.index_of_first_ensures(name);
    match plugins.index_of_first(name) {
        Some(i) => {
            let before = plugins.subrange(0, i);
            let after = plugins.subrange(i + 1, plugins.len() as int);
            assert(plugins =~= before.push(name) + after);
            assert(before.push(name).filter(keep) == before.filter(keep)) by {
                reveal(Seq::filter);
                assert(before.push(name).drop_last() =~= before);
            }
            Seq::filter_distributes_over_add(before.push(name), after, keep);
            Seq::filter_distributes_over_add(before, after, keep);
            assert(plugins.remove(i) =~= before + after);
        },
        None => {},
    }
}

} // verus!
