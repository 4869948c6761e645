//! The configuration document: the plugin list, and every other field of the
//! JSON object carried along untouched.

use crate::error::ConfigError;
use crate::json::{
    array_value, into_object, json_model, list_model, object_model, object_remove, object_value,
    parse_value, pretty_text, print_value, string_value, text_model, Json, JsonObject,
};
use crate::plugins::{
    disabled, enabled, is_enabled, lemma_disabled_absent, names, position, toggled,
};
use vstd::prelude::*;

verus! {

/// The key of the JSON object under which the plugins are listed.
pub const PLUGIN_FIELD: &'static str = "plugin";

/// What a call did to the plugin list.
#[derive(Clone, Copy, Debug, PartialEq, Eq, Structural)]
pub enum Change {
    /// The name was appended.
    Added,
    /// The first occurrence of the name was removed.
    Removed,
    /// The list is as it was.
    Unchanged,
}

/// A document as mathematics: the listed names in order, and the other
/// fields by key.
pub struct DocumentView {
    pub plugins: Seq<Seq<char>>,
    pub other: Map<Seq<char>, Json>,
}

/// The names of a JSON array of strings; `None` for any other value.
pub open spec fn string_list(value: Json) -> Option<Seq<Seq<char>>> {
    match value {
        Json::List(items) => if forall|i: int| 0 <= i < items.len() ==> items[i] is Text {
            Some(Seq::new(items.len(), |i: int| items[i]->Text_0))
        } else {
            None
        },
        _ => None,
    }
}

/// The JSON array of strings that lists the given names.
pub open spec fn list_of_strings(plugins: Seq<Seq<char>>) -> Json {
    Json::List(Seq::new(plugins.len(), |i: int| Json::Text(plugins[i])))
}

impl DocumentView {
    /// The plugin list has its own place: it is not among the other fields.
    pub open spec fn wf(self) -> bool {
        !self.other.contains_key(PLUGIN_FIELD@)
    }

    /// The document that a JSON value holds. The value must be an object,
    /// and its plugin field, where it has one, an array of strings; where it
    /// has none, no plugin is listed.
    pub open spec fn from_json(value: Json) -> Result<DocumentView, ConfigError> {
        match value {
            Json::Object(fields) => if fields.contains_key(PLUGIN_FIELD@) {
                match string_list(fields[PLUGIN_FIELD@]) {
                    Some(plugins) => Ok(
                        DocumentView { plugins, other: fields.remove(PLUGIN_FIELD@) },
                    ),
                    None => Err(ConfigError::Parse),
                }
            } else {
                Ok(DocumentView { plugins: Seq::empty(), other: fields })
            },
            _ => Err(ConfigError::Parse),
        }
    }

    /// The document that a text holds.
    pub open spec fn from_text(text: Seq<char>) -> Result<DocumentView, ConfigError> {
        match text_model(text) {
            Some(value) => Self::from_json(value),
            None => Err(ConfigError::Parse),
        }
    }

    /// The JSON object that holds the document: the other fields, and the
    /// plugin list under its key.
    pub open spec fn to_json(self) -> Json {
        Json::Object(self.other.insert(PLUGIN_FIELD@, list_of_strings(self.plugins)))
    }

    /// Whether `name` is listed.
    pub open spec fn is_enabled(self, name: Seq<char>) -> bool {
        is_enabled(self.plugins, name)
    }

    /// The document after enabling `name`.
    pub open spec fn enable(self, name: Seq<char>) -> DocumentView {
        DocumentView { plugins: enabled(self.plugins, name), other: self.other }
    }

    /// The document after disabling `name`.
    pub open spec fn disable(self, name: Seq<char>) -> DocumentView {
        DocumentView { plugins: disabled(self.plugins, name), other: self.other }
    }

    /// The document after toggling `name`.
    pub open spec fn toggle(self, name: Seq<char>) -> DocumentView {
        DocumentView { plugins: toggled(self.plugins, name), other: self.other }
    }

    /// What enabling `name` reports.
    pub open spec fn enable_change(self, name: Seq<char>) -> Change {
        if self.is_enabled(name) {
            Change::Unchanged
        } else {
            Change::Added
        }
    }

    /// What disabling `name` reports.
    pub open spec fn disable_change(self, name: Seq<char>) -> Change {
        if self.is_enabled(name) {
            Change::Removed
        } else {
            Change::Unchanged
        }
    }

    /// What toggling `name` reports.
    pub open spec fn toggle_change(self, name: Seq<char>) -> Change {
        if self.is_enabled(name) {
            Change::Removed
        } else {
            Change::Added
        }
    }
}

/// The configuration document in memory.
#[derive(Clone, Debug)]
pub struct ConfigDocument {
    plugin: Vec<String>,
    other: JsonObject,
}

impl View for ConfigDocument {
    type V = DocumentView;

    closed spec fn view(&self) -> DocumentView {
        DocumentView { plugins: names(self.plugin@), other: object_model(self.other) }
    }
}

/// The view of a document that was read, or the error that reading gave.
pub open spec fn view_of(read: Result<ConfigDocument, ConfigError>) -> Result<
    DocumentView,
    ConfigError,
> {
    match read {
        Ok(document) => Ok(document@),
        Err(error) => Err(error),
    }
}

/// The names that a JSON array of strings lists; `None` for any other value.
pub fn read_names(listed: &serde_json::Value) -> (read: Option<Vec<String>>)
    ensures
        match read {
            Some(plugins) => string_list(json_model(*listed)) == Some(names(plugins@)),
            None => string_list(json_model(*listed)) is None,
        },
{
    let items = match listed.as_array() {
        Some(items) => items,
        None => { return None; },
    };
    let mut plugins: Vec<String> = Vec::new();
    let mut i: usize = 0;
    while i < items.len()
        invariant
            i <= items.len(),
            plugins.len() == i,
            json_model(*listed) == Json::List(list_model(items@)),
            forall|j: int| 0 <= j < i ==> json_model(items@[j]) == Json::Text(plugins@[j]@),
        decreases items.len() - i,
    {
        match items[i].as_str() {
            Some(name) => plugins.push(name.to_owned()),
            None => {
                assert(!(list_model(items@)[i as int] is Text));
                return None;
            },
        }
        i += 1;
    }
    proof {
        let models = list_model(items@);
        assert forall|j: int| 0 <= j < models.len() implies models[j] is Text by {
            assert(models[j] == Json::Text(plugins@[j]@));
        }
        assert(Seq::new(models.len(), |j: int| models[j]->Text_0) =~= names(plugins@));
    }
    Some(plugins)
}

/// The text that was printed for a document, or the error of a save where
/// printing failed.
pub fn written_text(printed: Result<String, serde_json::Error>) -> (written: Result<
    String,
    ConfigError,
>)
    ensures
        written == match printed {
            Ok(text) => Ok::<String, ConfigError>(text),
            Err(_) => Err(ConfigError::Write),
        },
{
    match printed {
        Ok(text) => Ok(text),
        Err(_) => Err(ConfigError::Write),
    }
}

impl ConfigDocument {
    /// Reads the document out of a JSON value.
    pub fn from_value(value: serde_json::Value) -> (read: Result<ConfigDocument, ConfigError>)
        ensures
            view_of(read) == DocumentView::from_json(json_model(value)),
            read matches Ok(document) ==> document@.wf(),
    {
        let mut fields = match into_object(value) {
            Some(fields) => fields,
            None => { return Err(ConfigError::Parse); },
        };
        let ghost read = object_model(fields);
        let plugin = match object_remove(&mut fields, PLUGIN_FIELD) {
            Some(listed) => match read_names(&listed) {
                Some(plugin) => plugin,
                None => { return Err(ConfigError::Parse); },
            },
            None => {
                let plugin: Vec<String> = Vec::new();
                assert(names(plugin@) =~= Seq::empty());
                assert(read.remove(PLUGIN_FIELD@) =~= read);
                plugin
            },
        };
        Ok(ConfigDocument { plugin, other: fields })
    }

    /// Reads the document out of the text of a configuration file. Where the
    /// text gives a key twice, `serde_json` keeps the last occurrence, and so
    /// does the document.
    pub fn parse(text: &str) -> (read: Result<ConfigDocument, ConfigError>)
        ensures
            view_of(read) == DocumentView::from_text(text@),
            read matches Ok(document) ==> document@.wf(),
    {
        match parse_value(text) {
            Ok(value) => Self::from_value(value),
            Err(_) => Err(ConfigError::Parse),
        }
    }

    /// The listed plugins, in order.
    pub fn plugins(&self) -> (plugins: &Vec<String>)
        ensures
            names(plugins@) == self@.plugins,
    {
        &self.plugin
    }

    /// The fields of the JSON object other than the plugin list.
    pub fn other(&self) -> (other: &JsonObject)
        ensures
            object_model(*other) == self@.other,
    {
        &self.other
    }

    /// The JSON object that holds the document.
    pub fn to_value(&self) -> (value: serde_json::Value)
        ensures
            json_model(value) == self@.to_json(),
    {
        let mut items: Vec<serde_json::Value> = Vec::new();
        let mut i: usize = 0;
        while i < self.plugin.len()
            invariant
                i <= self.plugin.len(),
                items.len() == i,
                forall|j: int| 0 <= j < i ==> json_model(items@[j]) == Json::Text(self.plugin@[j]@),
            decreases self.plugin.len() - i,
        {
            items.push(string_value(self.plugin[i].clone()));
            i += 1;
        }
        let mut fields = self.other.clone();
        fields.insert(PLUGIN_FIELD.to_owned(), array_value(items));
        assert(list_model(items@) =~= Seq::new(
            self@.plugins.len(),
            |j: int| Json::Text(self@.plugins[j]),
        ));
        object_value(fields)
    }

    /// The text of the configuration file that holds the document. Every
    /// document has one.
    pub fn render(&self) -> (written: Result<String, ConfigError>)
        ensures
            written matches Ok(text) && text@ == pretty_text(self@.to_json()),
    {
        written_text(print_value(&self.to_value()))
    }

    /// Whether `name` is listed.
    pub fn is_enabled(&self, name: &str) -> (listed: bool)
        ensures
            listed == self@.is_enabled(name@),
    {
        position(&self.plugin, name).is_some()
    }

    /// Lists `name` at the end, unless it is listed already.
    pub fn enable(&mut self, name: &str) -> (change: Change)
        ensures
            final(self)@ == old(self)@.enable(name@),
            change == old(self)@.enable_change(name@),
    {
        match position(&self.plugin, name) {
            Some(_) => Change::Unchanged,
            None => {
                self.plugin.push(name.to_owned());
                assert(names(self.plugin@) =~= names(old(self).plugin@).push(name@));
                Change::Added
            },
        }
    }

    /// Removes the first occurrence of `name`, if there is one.
    pub fn disable(&mut self, name: &str) -> (change: Change)
        ensures
            final(self)@ == old(self)@.disable(name@),
            change == old(self)@.disable_change(name@),
    {
        match position(&self.plugin, name) {
            Some(i) => {
                let _ = self.plugin.remove(i);
                assert(names(self.plugin@) =~= names(old(self).plugin@).remove(i as int));
                Change::Removed
            },
            None => {
                proof {
                    lemma_disabled_absent(names(self.plugin@), name@);
                }
                Change::Unchanged
            },
        }
    }

    /// Disables `name` where it is listed, and enables it where it is not.
    pub fn toggle(&mut self, name: &str) -> (change: Change)
        ensures
            final(self)@ == old(self)@.toggle(name@),
            change == old(self)@.toggle_change(name@),
    {
        if self.is_enabled(name) {
            self.disable(name)
        } else {
            self.enable(name)
        }
    }
}

} // verus!
