//! What holds of every document: the laws of enabling, disabling and
//! toggling, of writing a document out and reading it back, and of the order
//! in which a save proceeds.

use crate::document::{list_of_strings, string_list, Change, DocumentView, PLUGIN_FIELD};
use crate::error::ConfigError;
use crate::json::{pretty_text, text_model, Json};
use crate::plugins::{
    at_most_once, disabled, lemma_disabled_absent, lemma_disabled_after_push,
    lemma_disabled_once, lemma_disabled_others, lemma_enabled_others, others,
};
use crate::store::{after_step, SaveStep};
use vstd::prelude::*;

verus! {

/// Enabling twice is enabling once: the second call changes nothing and
/// reports so.
pub proof fn enable_is_idempotent(document: DocumentView, name: Seq<char>)
    ensures
        document.enable(name).is_enabled(name),
        document.enable(name).enable(name) == document.enable(name),
        document.enable(name).enable_change(name) == Change::Unchanged,
{
    if !document.plugins.contains(name) {
        let longer = document.plugins.push(name);
        assert(longer[document.plugins.len() as int] == name);
    }
}

/// Disabling twice is disabling once, for a name that is listed at most
/// once: the second call changes nothing and reports so.
pub proof fn disable_is_idempotent(document: DocumentView, name: Seq<char>)
    requires
        at_most_once(document.plugins, name),
    ensures
        !document.disable(name).is_enabled(name),
        document.disable(name).disable(name) == document.disable(name),
        document.disable(name).disable_change(name) == Change::Unchanged,
{
    lemma_disabled_once(document.plugins, name);
    lemma_disabled_absent(disabled(document.plugins, name), name);
}

/// Toggling flips the state of a name that is listed at most once.
pub proof fn toggle_flips(document: DocumentView, name: Seq<char>)
    requires
        at_most_once(document.plugins, name),
    ensures
        document.toggle(name).is_enabled(name) == !document.is_enabled(name),
{
    if document.is_enabled(name) {
        disable_is_idempotent(document, name);
    } else {
        enable_is_idempotent(document, name);
    }
}

/// Toggling twice gives the document back, for a name that is not listed, or
/// is listed once and last.
pub proof fn toggle_twice_restores(document: DocumentView, name: Seq<char>)
    requires
        at_most_once(document.plugins, name),
        document.is_enabled(name) ==> document.plugins.last() == name,
    ensures
        document.toggle(name).toggle(name) == document,
{
    let plugins = document.plugins;
    if plugins.contains(name) {
        let last = plugins.len() - 1;
        plugins.index_of_first_ensures(name);
        assert(plugins.index_of_first(name) == Some(last));
        lemma_disabled_once(plugins, name);
        assert(plugins.remove(last).push(name) =~= plugins);
    } else {
        enable_is_idempotent(document, name);
        lemma_disabled_after_push(plugins, name);
    }
}

/// Toggling twice keeps what is listed, and how often, for a name that is
/// listed at most once; where the name was listed, it now stands at the end.
pub proof fn toggle_twice_keeps_members(document: DocumentView, name: Seq<char>)
    requires
        at_most_once(document.plugins, name),
    ensures
        document.toggle(name).toggle(name).other == document.other,
        document.toggle(name).toggle(name).plugins.to_multiset()
            == document.plugins.to_multiset(),
        document.is_enabled(name) ==> document.toggle(name).toggle(name).plugins == disabled(
            document.plugins,
            name,
        ).push(name),
{
    broadcast use vstd::seq_lib::group_to_multiset_ensures;

    let plugins = document.plugins;
    if plugins.contains(name) {
        plugins.index_of_first_ensures(name);
        let i = plugins.index_of_first(name).unwrap();
        lemma_disabled_once(plugins, name);
        assert(plugins.remove(i).to_multiset() == plugins.to_multiset().remove(name));
        assert(plugins.to_multiset().count(name) > 0);
        assert(plugins.to_multiset().remove(name).insert(name) =~= plugins.to_multiset());
    } else {
        toggle_twice_restores(document, name);
    }
}

/// Enabling, disabling and toggling a name leave every other name where it
/// stands: the list changes by that one name and by nothing else.
pub proof fn changes_keep_other_names(document: DocumentView, name: Seq<char>)
    ensures
        others(document.enable(name).plugins, name) == others(document.plugins, name),
        others(document.disable(name).plugins, name) == others(document.plugins, name),
        others(document.toggle(name).plugins, name) == others(document.plugins, name),
{
    lemma_enabled_others(document.plugins, name);
    lemma_disabled_others(document.plugins, name);
}

/// A call reports `Unchanged` exactly when it left the document as it was.
pub proof fn unchanged_is_reported(document: DocumentView, name: Seq<char>)
    ensures
        (document.enable_change(name) == Change::Unchanged) == (document.enable(name)
            == document),
        (document.disable_change(name) == Change::Unchanged) == (document.disable(name)
            == document),
        document.toggle_change(name) != Change::Unchanged,
        document.toggle(name) != document,
{
    document.plugins.index_of_first_ensures(name);
    if document.plugins.contains(name) {
        let i = document.plugins.index_of_first(name).unwrap();
        assert(document.plugins.remove(i).len() == document.plugins.len() - 1);
    } else {
        assert(document.plugins.push(name).len() == document.plugins.len() + 1);
    }
}

/// A document that was read keeps its plugin list apart from its other
/// fields.
pub proof fn read_is_well_formed(value: Json)
    ensures
        DocumentView::from_json(value) matches Ok(document) ==> document.wf(),
{
}

/// The JSON object that holds a document holds nothing else: read back, it
/// gives the same plugin list and the same other fields.
pub proof fn reading_back(document: DocumentView)
    requires
        document.wf(),
    ensures
        DocumentView::from_json(document.to_json()) == Ok::<DocumentView, ConfigError>(document),
{
    let listed = list_of_strings(document.plugins);
    let fields = document.other.insert(PLUGIN_FIELD@, listed);
    assert(string_list(listed) == Some(document.plugins)) by {
        let items = listed->List_0;
        assert(Seq::new(items.len(), |i: int| items[i]->Text_0) =~= document.plugins);
    }
    assert(fields.remove(PLUGIN_FIELD@) =~= document.other);
}

/// Whichever change was applied to a document, the JSON object written for
/// it gives back, when read, the changed plugin list and the other fields
/// of the document as they were before the change.
pub proof fn other_fields_survive(document: DocumentView, name: Seq<char>)
    requires
        document.wf(),
    ensures
        document.enable(name).other == document.other,
        document.disable(name).other == document.other,
        document.toggle(name).other == document.other,
        DocumentView::from_json(document.enable(name).to_json()) == Ok::<
            DocumentView,
            ConfigError,
        >(document.enable(name)),
        DocumentView::from_json(document.disable(name).to_json()) == Ok::<
            DocumentView,
            ConfigError,
        >(document.disable(name)),
        DocumentView::from_json(document.toggle(name).to_json()) == Ok::<
            DocumentView,
            ConfigError,
        >(document.toggle(name)),
{
    reading_back(document.enable(name));
    reading_back(document.disable(name));
    reading_back(document.toggle(name));
}

/// Wherever the text printed for a document is read as the value that was
/// printed, the document read from that text is the document written.
pub proof fn reading_back_text(document: DocumentView)
    requires
        document.wf(),
    ensures
        text_model(pretty_text(document.to_json())) == Some(document.to_json())
            ==> DocumentView::from_text(pretty_text(document.to_json())) == Ok::<
            DocumentView,
            ConfigError,
        >(document),
{
    reading_back(document);
}

/// A save whose steps succeed is the temporary write, then the rename, then
/// nothing more: it ends well with the rename.
pub proof fn successful_steps_complete_the_save()
    ensures
        after_step(SaveStep::WriteTemp, true) == Ok::<Option<SaveStep>, ConfigError>(
            Some(SaveStep::Rename),
        ),
        after_step(SaveStep::Rename, true) == Ok::<Option<SaveStep>, ConfigError>(None),
{
}

/// A save renames only a temporary file that was written in full, and a
/// step that failed ends the save: whatever fails, no step touches the
/// configuration file afterwards.
pub proof fn rename_follows_full_write(step: SaveStep, succeeded: bool)
    ensures
        after_step(step, succeeded) == Ok::<Option<SaveStep>, ConfigError>(Some(SaveStep::Rename))
            <==> step == SaveStep::WriteTemp && succeeded,
        !succeeded ==> after_step(step, succeeded) == Err::<Option<SaveStep>, ConfigError>(
            ConfigError::Write,
        ),
        after_step(step, succeeded) != Ok::<Option<SaveStep>, ConfigError>(
            Some(SaveStep::WriteTemp),
        ),
{
}

} // verus!
