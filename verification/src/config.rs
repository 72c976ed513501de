//! The configuration: who is told about which city, and with which credentials.

use vstd::prelude::*;
use crate::failure::Failure;
use crate::toml_doc::{TomlItem, parsed_toml, toml_item, toml_items, toml_field, toml_parse, toml_get, toml_as_str, toml_as_array};

verus! {

/// One person to notify and the city whose weather they are told.
#[derive(Debug, Clone, PartialEq, Eq)]
pub struct User {
    pub id: String,
    pub city: String,
}

/// The mathematical value of a `User`.
pub struct UserView {
    pub id: Seq<char>,
    pub city: Seq<char>,
}

/// The settings of one run, loaded once.
#[derive(Debug, Clone, PartialEq, Eq)]
pub struct Conf {
    pub weather_api_token: String,
    pub webhook_url: String,
    pub users: Vec<User>,
}

/// The mathematical value of a `Conf`.
pub struct ConfView {
    pub weather_api_token: Seq<char>,
    pub webhook_url: Seq<char>,
    pub users: Seq<UserView>,
}

impl View for User {
    type V = UserView;

    open spec fn view(&self) -> UserView {
        UserView { id: self.id@, city: self.city@ }
    }
}

impl View for Conf {
    type V = ConfView;

    open spec fn view(&self) -> ConfView {
        ConfView {
            weather_api_token: self.weather_api_token@,
            webhook_url: self.webhook_url@,
            users: users_view(self.users@),
        }
    }
}

/// The string under a key of a table; `None` where the entry is missing or
/// is no string.
pub open spec fn toml_text_at(t: TomlItem, key: Seq<char>) -> Option<Seq<char>> {
    match toml_field(t, key) {
        Some(TomlItem::Text(s)) => Some(s),
        _ => None,
    }
}

/// The user that one entry of `discord.users` describes: a table with the
/// strings `id` and `city`.
pub open spec fn user_of(t: TomlItem) -> Option<UserView> {
    match (toml_text_at(t, "id"@), toml_text_at(t, "city"@)) {
        (Some(id), Some(city)) => Some(UserView { id, city }),
        _ => None,
    }
}

/// The users that a list of entries describes, in the list's order; `None`
/// where one entry describes no user.
pub open spec fn users_of(list: Seq<TomlItem>) -> Option<Seq<UserView>> {
    if forall|i: int| 0 <= i < list.len() ==> (#[trigger] user_of(list[i])) is Some {
        Some(Seq::new(list.len(), |i: int| user_of(list[i]).unwrap()))
    } else {
        None
    }
}

/// The list under `discord.users`; `None` where it is missing or no array.
pub open spec fn user_entries(discord: TomlItem) -> Option<Seq<TomlItem>> {
    match toml_field(discord, "users"@) {
        Some(TomlItem::List(l)) => Some(l),
        _ => None,
    }
}

/// The configuration that a document describes. The document needs the table
/// `weather_api` with the string `token`, and the table `discord` with the
/// string `webhook_url` and the array `users`; entries beyond these are not
/// read. Nothing is filled in for an entry that is missing.
pub open spec fn conf_of(doc: TomlItem) -> Option<ConfView> {
    match (toml_field(doc, "weather_api"@), toml_field(doc, "discord"@)) {
        (Some(api), Some(discord)) => match (
            toml_text_at(api, "token"@),
            toml_text_at(discord, "webhook_url"@),
            user_entries(discord),
        ) {
            (Some(token), Some(url), Some(list)) => match users_of(list) {
                Some(users) => Some(
                    ConfView { weather_api_token: token, webhook_url: url, users },
                ),
                None => None,
            },
            _ => None,
        },
        _ => None,
    }
}

/// The entries under `discord.users` of a document.
pub open spec fn doc_user_entries(doc: TomlItem) -> Option<Seq<TomlItem>> {
    match toml_field(doc, "discord"@) {
        Some(discord) => user_entries(discord),
        None => None,
    }
}

/// The document has every required entry, each of its type.
pub open spec fn complete(doc: TomlItem) -> bool {
    &&& toml_field(doc, "weather_api"@) is Some
    &&& toml_text_at(toml_field(doc, "weather_api"@).unwrap(), "token"@) is Some
    &&& toml_field(doc, "discord"@) is Some
    &&& toml_text_at(toml_field(doc, "discord"@).unwrap(), "webhook_url"@) is Some
    &&& doc_user_entries(doc) is Some
    &&& forall|i: int|
        0 <= i < doc_user_entries(doc).unwrap().len() ==> {
            &&& toml_text_at(#[trigger] doc_user_entries(doc).unwrap()[i], "id"@) is Some
            &&& toml_text_at(doc_user_entries(doc).unwrap()[i], "city"@) is Some
        }
}

/// Every user entry of a valid document is loaded, in the document's order:
/// the configuration has as many users as the document has entries, and the
/// user at each place is the one that the entry at that place describes.
pub proof fn users_keep_count_and_order(doc: TomlItem, conf: ConfView)
    requires
        conf_of(doc) == Some(conf),
    ensures
        doc_user_entries(doc) is Some,
        conf.users.len() == doc_user_entries(doc).unwrap().len(),
        forall|i: int|
            0 <= i < conf.users.len() ==> user_of(doc_user_entries(doc).unwrap()[i]) == Some(
                #[trigger] conf.users[i],
            ),
{
}

/// A document gives a configuration exactly where it is complete: one that
/// lacks a required entry, or holds it with another type, gives none, and
/// nothing is filled in for it.
pub proof fn incomplete_document_is_rejected(doc: TomlItem)
    ensures
        conf_of(doc) is Some <==> complete(doc),
{
    if complete(doc) {
        let list = doc_user_entries(doc).unwrap();
        assert forall|i: int| 0 <= i < list.len() implies (#[trigger] user_of(list[i])) is Some by {
            assert(toml_text_at(list[i], "id"@) is Some);
        }
    }
    if conf_of(doc) is Some {
        let list = doc_user_entries(doc).unwrap();
        assert forall|i: int| 0 <= i < list.len() implies {
            &&& toml_text_at(#[trigger] list[i], "id"@) is Some
            &&& toml_text_at(list[i], "city"@) is Some
        } by {
            assert(user_of(list[i]) is Some);
        }
    }
}

/// What loading gives for the outcome of reading the configuration file:
/// `Failure::ConfigRead` where the file could not be read, else what the
/// text gives.
pub open spec fn loaded(contents: Option<Seq<char>>) -> Result<ConfView, Failure> {
    match contents {
        None => Err(Failure::ConfigRead),
        Some(text) => match parsed_toml(text) {
            Some(doc) => match conf_of(doc) {
                Some(conf) => Ok(conf),
                None => Err(Failure::ConfigParse),
            },
            None => Err(Failure::ConfigParse),
        },
    }
}

/// A malformed configuration never loads: where the text is no TOML
/// document, or its document is not complete, loading fails with
/// `Failure::ConfigParse`, and no configuration with defaults comes out.
pub proof fn malformed_text_is_rejected(text: Seq<char>)
    requires
        parsed_toml(text) is None || !complete(parsed_toml(text).unwrap()),
    ensures
        loaded(Some(text)) == Err::<ConfView, Failure>(Failure::ConfigParse),
{
    if parsed_toml(text) is Some {
        incomplete_document_is_rejected(parsed_toml(text).unwrap());
    }
}

/// The string under `key` of a table, copied.
fn text_at(t: &toml::Value, key: &str) -> (r: Option<String>)
    ensures
        match r {
            Some(s) => toml_text_at(toml_item(*t), key@) == Some(s@),
            None => toml_text_at(toml_item(*t), key@) is None,
        },
{
    match toml_get(t, key) {
        Some(e) => match toml_as_str(e) {
            Some(s) => Some(s.to_owned()),
            None => None,
        },
        None => None,
    }
}

/// Reads one entry of `discord.users`.
pub fn user_from_value(entry: &toml::Value) -> (r: Option<User>)
    ensures
        match r {
            Some(u) => user_of(toml_item(*entry)) == Some(u@),
            None => user_of(toml_item(*entry)) is None,
        },
{
    match text_at(entry, "id") {
        Some(id) => match text_at(entry, "city") {
            Some(city) => Some(User { id, city }),
            None => None,
        },
        None => None,
    }
}

/// The sequence of the users' values.
pub open spec fn users_view(users: Seq<User>) -> Seq<UserView> {
    users.map_values(|u: User| u@)
}

/// Reads every entry of `discord.users`, in order; `None` as soon as one
/// entry describes no user.
pub fn users_from_values(entries: &Vec<toml::Value>) -> (r: Option<Vec<User>>)
    ensures
        match r {
            Some(users) => users_of(toml_items(entries@)) == Some(users_view(users@)),
            None => users_of(toml_items(entries@)) is None,
        },
{
    let ghost list = toml_items(entries@);
    let mut users: Vec<User> = Vec::new();
    let mut i: usize = 0;
    while i < entries.len()
        invariant
            0 <= i <= entries.len(),
            list == toml_items(entries@),
            users@.len() == i,
            forall|j: int| 0 <= j < i ==> user_of(list[j]) == Some(#[trigger] users@[j]@),
        decreases entries.len() - i,
    {
        match user_from_value(&entries[i]) {
            Some(u) => {
                users.push(u);
            },
            None => {
                assert(user_of(list[i as int]) is None);
                return None;
            },
        }
        i = i + 1;
    }
    proof {
        assert forall|j: int| 0 <= j < list.len() implies (#[trigger] user_of(list[j])) is Some by {
            assert(user_of(list[j]) == Some(users@[j]@));
        }
        assert(users_view(users@) =~= users_of(list).unwrap());
    }
    Some(users)
}

/// Reads the configuration out of a parsed document. Succeeds exactly on the
/// documents that `conf_of` accepts, with every user in document order.
pub fn conf_from_value(doc: &toml::Value) -> (r: Result<Conf, Failure>)
    ensures
        match r {
            Ok(c) => conf_of(toml_item(*doc)) == Some(c@),
            Err(e) => e == Failure::ConfigParse && conf_of(toml_item(*doc)) is None,
        },
{
    let api = match toml_get(doc, "weather_api") {
        Some(v) => v,
        None => { return Err(Failure::ConfigParse); },
    };
    let discord = match toml_get(doc, "discord") {
        Some(v) => v,
        None => { return Err(Failure::ConfigParse); },
    };
    let token = match text_at(api, "token") {
        Some(s) => s,
        None => { return Err(Failure::ConfigParse); },
    };
    let url = match text_at(discord, "webhook_url") {
        Some(s) => s,
        None => { return Err(Failure::ConfigParse); },
    };
    let entries = match toml_get(discord, "users") {
        Some(v) => match toml_as_array(v) {
            Some(a) => a,
            None => { return Err(Failure::ConfigParse); },
        },
        None => { return Err(Failure::ConfigParse); },
    };
    let users = match users_from_values(entries) {
        Some(u) => u,
        None => { return Err(Failure::ConfigParse); },
    };
    assert(user_entries(toml_item(*discord)) == Some(toml_items(entries@)));
    Ok(Conf { weather_api_token: token, webhook_url: url, users })
}

/// Reads the configuration from the text of a configuration file. Fails with
/// `Failure::ConfigParse`, and only so, exactly where the text is no TOML
/// document or the document lacks a required entry.
pub fn parse_conf(text: &str) -> (r: Result<Conf, Failure>)
    ensures
        match r {
            Ok(c) => loaded(Some(text@)) == Ok::<ConfView, Failure>(c@),
            Err(e) => e == Failure::ConfigParse && loaded(Some(text@)) == Err::<ConfView, Failure>(
                Failure::ConfigParse,
            ),
        },
{
    match toml_parse(text) {
        Ok(doc) => conf_from_value(&doc),
        Err(_) => Err(Failure::ConfigParse),
    }
}

/// The text that reading gave, as a sequence of characters.
pub open spec fn read_text(contents: Option<&str>) -> Option<Seq<char>> {
    match contents {
        Some(text) => Some(text@),
        None => None,
    }
}

/// Loads the configuration from what reading the configuration file gave:
/// its text, or `None` where it could not be read.
pub fn load_conf(contents: Option<&str>) -> (r: Result<Conf, Failure>)
    ensures
        match r {
            Ok(c) => loaded(read_text(contents)) == Ok::<ConfView, Failure>(c@),
            Err(e) => loaded(read_text(contents)) == Err::<ConfView, Failure>(e),
        },
{
    match contents {
        Some(text) => parse_conf(text),
        None => Err(Failure::ConfigRead),
    }
}

} // verus!
