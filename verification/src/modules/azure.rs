//! The Azure segment: which subscription is active, and under what name.

use crate::configs::azure::{AzureConfig, AzureConfigView};
use crate::context::{first_value, Context, ContextView};
use crate::ini_document::{ini_parse, ini_section, ini_sections, section_get, Sections};
use crate::json_document::{
    json_from_slice, json_member, json_parse, json_tree, json_trees, member_of, Json,
};
use crate::text::{decode_text, join, join_path, str_eq, strip_bom, utf8_text, without_bom};
use ini::Ini;
use serde_json::Value;
use vstd::prelude::*;
use vstd::string::*;

verus! {

/// Environment variable that names the configuration directory.
pub const CONFIG_DIR_VARIABLE: &'static str = "AZURE_CONFIG_DIR";

/// Configuration directory below the home directory.
pub const HOME_CONFIG_DIR: &'static str = ".azure";

/// File that records the active subscription.
pub const CLOUD_CONFIG_FILE: &'static str = "clouds.config";

/// Section of the cloud configuration that belongs to the active cloud.
pub const CLOUD_SECTION: &'static str = "AzureCloud";

/// Key of that section whose value is the active subscription's identifier.
pub const SUBSCRIPTION_KEY: &'static str = "subscription";

/// File that lists the subscriptions of the account.
pub const PROFILE_FILE: &'static str = "accountProfile.json";

/// Field of the profile document that holds the array of subscriptions.
pub const SUBSCRIPTIONS_FIELD: &'static str = "subscriptions";

/// Field of a subscription that holds its identifier.
pub const ID_FIELD: &'static str = "id";

/// Field of a subscription that holds its name.
pub const NAME_FIELD: &'static str = "name";

/// Name of the segment.
pub const MODULE_NAME: &'static str = "azure";

/// Template variable that stands for the glyph of the segment.
pub const SYMBOL_VARIABLE: &'static str = "symbol";

/// Template variable that stands for the style of the segment.
pub const STYLE_VARIABLE: &'static str = "style";

/// Template variable that stands for the name of the subscription.
pub const SUBSCRIPTION_VARIABLE: &'static str = "subscription";

/// What a warning about a template that could not be rendered begins with.
pub const WARNING_PREFIX: &'static str = "Error in module `azure`:\n";

/// The active subscription once it is resolved: its identifier and the name
/// it is shown under.
#[derive(Clone, Debug, PartialEq, Eq)]
pub struct Subscription {
    pub id: String,
    pub name: String,
}

impl View for Subscription {
    type V = (Seq<char>, Seq<char>);

    open spec fn view(&self) -> (Seq<char>, Seq<char>) {
        (self.id@, self.name@)
    }
}

/// A subscription as the profile lists it: its identifier, and its name
/// where the entry has one.
#[derive(Clone, Debug, PartialEq, Eq)]
pub struct ProfileRecord {
    pub id: String,
    pub name: Option<String>,
}

/// A record as plain values: the identifier, and the name where there is
/// one.
pub type RecordView = (Seq<char>, Option<Seq<char>>);

impl View for ProfileRecord {
    type V = RecordView;

    open spec fn view(&self) -> RecordView {
        (
            self.id@,
            match self.name {
                Some(name) => Some(name@),
                None => None,
            },
        )
    }
}

/// Records as pairs of identifier and name.
pub open spec fn records_view(records: Seq<ProfileRecord>) -> Seq<RecordView> {
    records.map_values(|record: ProfileRecord| record@)
}

/// The configuration directory: the value of the override variable where it
/// is set and not empty, else the directory below the home directory, else
/// nothing.
pub open spec fn config_file_location(context: ContextView) -> Option<Seq<char>> {
    match first_value(context.env, CONFIG_DIR_VARIABLE@) {
        Some(dir) if dir.len() > 0 => Some(dir),
        _ => match context.home {
            Some(home) => Some(join(home, HOME_CONFIG_DIR@)),
            None => None,
        },
    }
}

/// The identifier that a cloud configuration names: the value of the
/// subscription key in the section of the active cloud.
pub open spec fn active_subscription(sections: Sections) -> Option<Seq<char>> {
    let name = Some(CLOUD_SECTION@);
    if sections.contains_key(name) && sections[name].contains_key(SUBSCRIPTION_KEY@) {
        Some(sections[name][SUBSCRIPTION_KEY@])
    } else {
        None
    }
}

/// The identifier that the bytes of a cloud configuration file name. The
/// bytes may begin with a byte-order mark; what follows has to be UTF-8 text
/// that parses.
pub open spec fn cloud_config_subscription(bytes: Seq<u8>) -> Option<Seq<char>> {
    match utf8_text(without_bom(bytes)) {
        Some(text) => match ini_parse(text) {
            Some(sections) => active_subscription(sections),
            None => None,
        },
        None => None,
    }
}

/// The identifier of the active subscription in a context.
pub open spec fn subscription_id(context: ContextView) -> Option<Seq<char>> {
    match config_file_location(context) {
        Some(dir) => match first_value(context.files, join(dir, CLOUD_CONFIG_FILE@)) {
            Some(bytes) => cloud_config_subscription(bytes),
            None => None,
        },
        None => None,
    }
}

/// Finds the configuration directory.
pub fn get_config_file_location(context: &Context) -> (location: Option<String>)
    ensures
        match location {
            Some(dir) => config_file_location(context@) == Some(dir@),
            None => config_file_location(context@) is None,
        },
{
    match context.get_env(CONFIG_DIR_VARIABLE) {
        Some(dir) => {
            if !dir.is_empty() {
                return Some(dir.to_owned());
            }
        },
        None => {},
    }
    match context.get_home() {
        Some(home) => Some(join_path(home, HOME_CONFIG_DIR)),
        None => None,
    }
}

/// The paths of the files that resolution reads in a context: the cloud
/// configuration and the profile, both in the configuration directory.
pub open spec fn config_file_paths(context: ContextView) -> Seq<Seq<char>> {
    match config_file_location(context) {
        Some(dir) => seq![join(dir, CLOUD_CONFIG_FILE@), join(dir, PROFILE_FILE@)],
        None => Seq::empty(),
    }
}

/// Lists the files that a snapshot has to hold for resolution to find them.
/// The list is empty where there is no configuration directory.
pub fn get_config_file_paths(context: &Context) -> (paths: Vec<String>)
    ensures
        paths@.map_values(|path: String| path@) == config_file_paths(context@),
{
    let mut paths: Vec<String> = Vec::new();
    match get_config_file_location(context) {
        Some(dir) => {
            paths.push(join_path(dir.as_str(), CLOUD_CONFIG_FILE));
            paths.push(join_path(dir.as_str(), PROFILE_FILE));
        },
        None => {},
    }
    assert(paths@.map_values(|path: String| path@) =~= config_file_paths(context@));
    paths
}

/// Reads the active subscription out of a parsed cloud configuration. A
/// missing section and a missing key both give nothing.
pub fn read_active_identifier(document: &Ini) -> (id: Option<String>)
    ensures
        match id {
            Some(id) => active_subscription(ini_sections(*document)) == Some(id@),
            None => active_subscription(ini_sections(*document)) is None,
        },
{
    match ini_section(document, CLOUD_SECTION) {
        Some(section) => match section_get(section, SUBSCRIPTION_KEY) {
            Some(value) => Some(value.to_owned()),
            None => None,
        },
        None => None,
    }
}

/// Reads the active subscription out of the bytes of a cloud configuration
/// file.
pub fn read_cloud_config(bytes: &[u8]) -> (id: Option<String>)
    ensures
        match id {
            Some(id) => cloud_config_subscription(bytes@) == Some(id@),
            None => cloud_config_subscription(bytes@) is None,
        },
{
    let text = match decode_text(strip_bom(bytes)) {
        Some(text) => text,
        None => {
            return None;
        },
    };
    match Ini::load_from_str(text) {
        Ok(document) => read_active_identifier(&document),
        Err(_) => None,
    }
}

/// Finds the identifier of the active subscription.
pub fn get_azure_subscription_id(context: &Context) -> (id: Option<String>)
    ensures
        match id {
            Some(id) => subscription_id(context@) == Some(id@),
            None => subscription_id(context@) is None,
        },
{
    let dir = match get_config_file_location(context) {
        Some(dir) => dir,
        None => {
            return None;
        },
    };
    let path = join_path(dir.as_str(), CLOUD_CONFIG_FILE);
    match context.read_file(path.as_str()) {
        Some(bytes) => read_cloud_config(bytes),
        None => None,
    }
}

/// The document in the bytes of a profile file: a byte-order mark in front
/// is taken off, the rest is parsed as JSON.
pub open spec fn profile_document(bytes: Seq<u8>) -> Option<Json> {
    json_parse(without_bom(bytes))
}

/// The document in the file at `path`, where the context holds that file and
/// it parses.
pub open spec fn file_document(context: ContextView, path: Seq<char>) -> Option<Json> {
    match first_value(context.files, path) {
        Some(bytes) => profile_document(bytes),
        None => None,
    }
}

/// The record that an entry of the array stands for. An entry whose `id` is
/// a string is a record, with the name that its `name` holds where that is a
/// string too. Any other entry is no record: no identifier equals it.
pub open spec fn record_of(entry: Json) -> Option<RecordView> {
    match member_of(entry, ID_FIELD@) {
        Json::Text(id) => Some(
            (
                id,
                match member_of(entry, NAME_FIELD@) {
                    Json::Text(name) => Some(name),
                    _ => None,
                },
            ),
        ),
        _ => None,
    }
}

/// The records that the entries stand for, in the order of the entries.
pub open spec fn records_of(entries: Seq<Json>) -> Seq<RecordView>
    decreases entries.len(),
{
    if entries.len() == 0 {
        Seq::empty()
    } else {
        let earlier = records_of(entries.drop_last());
        match record_of(entries.last()) {
            Some(record) => earlier.push(record),
            None => earlier,
        }
    }
}

/// The records of a profile document; nothing where the document has no
/// array of subscriptions.
pub open spec fn document_records(document: Json) -> Option<Seq<RecordView>> {
    match member_of(document, SUBSCRIPTIONS_FIELD@) {
        Json::Array(entries) => Some(records_of(entries)),
        _ => None,
    }
}

/// The records that the profile file of a context lists.
pub open spec fn all_records(context: ContextView) -> Option<Seq<RecordView>> {
    match config_file_location(context) {
        Some(dir) => match file_document(context, join(dir, PROFILE_FILE@)) {
            Some(document) => document_records(document),
            None => None,
        },
        None => None,
    }
}

/// The name that `records` give to `id`: that of the first record with this
/// identifier. Later records with the same identifier have no say, not even
/// where the first one has no name.
pub open spec fn name_among(records: Seq<RecordView>, id: Seq<char>) -> Option<Seq<char>> {
    match first_value(records, id) {
        Some(Some(name)) => Some(name),
        _ => None,
    }
}

/// The name of the subscription `id` in a context.
pub open spec fn subscription_name(context: ContextView, id: Seq<char>) -> Option<Seq<char>> {
    match all_records(context) {
        Some(records) => name_among(records, id),
        None => None,
    }
}

/// Parses the bytes of a profile file.
pub fn parse_profile(bytes: &[u8]) -> (document: Option<Value>)
    ensures
        match document {
            Some(document) => profile_document(bytes@) == Some(json_tree(document)),
            None => profile_document(bytes@) is None,
        },
{
    match json_from_slice(strip_bom(bytes)) {
        Ok(document) => Some(document),
        Err(_) => None,
    }
}

/// Reads and parses the JSON file at `json_file_path`.
pub fn parse_json(context: &Context, json_file_path: &str) -> (document: Option<Value>)
    ensures
        match document {
            Some(document) => file_document(context@, json_file_path@) == Some(
                json_tree(document),
            ),
            None => file_document(context@, json_file_path@) is None,
        },
{
    match context.read_file(json_file_path) {
        Some(bytes) => parse_profile(bytes),
        None => None,
    }
}

/// Reads one entry of the array of subscriptions.
pub fn read_record(entry: &Value) -> (record: Option<ProfileRecord>)
    ensures
        match record {
            Some(record) => record_of(json_tree(*entry)) == Some(record@),
            None => record_of(json_tree(*entry)) is None,
        },
{
    let id = match json_member(entry, ID_FIELD).as_str() {
        Some(id) => id,
        None => {
            return None;
        },
    };
    let name = match json_member(entry, NAME_FIELD).as_str() {
        Some(name) => Some(name.to_owned()),
        None => None,
    };
    Some(ProfileRecord { id: id.to_owned(), name })
}

/// Reads the records out of a parsed profile document, in document order.
pub fn read_document_records(document: &Value) -> (records: Option<Vec<ProfileRecord>>)
    ensures
        match records {
            Some(records) => document_records(json_tree(*document)) == Some(
                records_view(records@),
            ),
            None => document_records(json_tree(*document)) is None,
        },
{
    let entries = match json_member(document, SUBSCRIPTIONS_FIELD).as_array() {
        Some(entries) => entries,
        None => {
            return None;
        },
    };
    let ghost trees = json_trees(entries@);
    let mut records: Vec<ProfileRecord> = Vec::new();
    let mut i: usize = 0;
    assert(trees.take(0) =~= Seq::<Json>::empty());
    while i < entries.len()
        invariant
            i <= entries.len(),
            trees == json_trees(entries@),
            records_view(records@) == records_of(trees.take(i as int)),
        decreases entries.len() - i,
    {
        proof {
            assert(trees.take(i + 1).drop_last() =~= trees.take(i as int));
            assert(trees.take(i + 1).last() == json_tree(entries@[i as int]));
        }
        let ghost before = records@;
        match read_record(&entries[i]) {
            Some(record) => {
                records.push(record);
                assert(records_view(records@) =~= records_view(before).push(record@));
            },
            None => {},
        }
        i += 1;
    }
    assert(trees.take(entries.len() as int) =~= trees);
    Some(records)
}

/// Reads the records that the profile file lists.
pub fn read_all_records(context: &Context) -> (records: Option<Vec<ProfileRecord>>)
    ensures
        match records {
            Some(records) => all_records(context@) == Some(records_view(records@)),
            None => all_records(context@) is None,
        },
{
    let dir = match get_config_file_location(context) {
        Some(dir) => dir,
        None => {
            return None;
        },
    };
    let path = join_path(dir.as_str(), PROFILE_FILE);
    match parse_json(context, path.as_str()) {
        Some(document) => read_document_records(&document),
        None => None,
    }
}

/// Finds the name that `records` give to `current_subscription_id`: the scan
/// stops at the first record with this identifier.
pub fn find_subscription_name(records: &Vec<ProfileRecord>, current_subscription_id: &str) -> (name:
    Option<String>)
    ensures
        match name {
            Some(name) => name_among(records_view(records@), current_subscription_id@) == Some(
                name@,
            ),
            None => name_among(records_view(records@), current_subscription_id@) is None,
        },
{
    let ghost all = records_view(records@);
    let mut i: usize = 0;
    assert(all.skip(0) =~= all);
    while i < records.len()
        invariant
            i <= records.len(),
            all == records_view(records@),
            first_value(all, current_subscription_id@) == first_value(
                all.skip(i as int),
                current_subscription_id@,
            ),
        decreases records.len() - i,
    {
        proof {
            assert(all.skip(i as int)[0] == all[i as int]);
            assert(all.skip(i as int).drop_first() =~= all.skip(i + 1));
        }
        if str_eq(records[i].id.as_str(), current_subscription_id) {
            return match &records[i].name {
                Some(name) => Some(name.clone()),
                None => None,
            };
        }
        i += 1;
    }
    None
}

/// Finds the name of the subscription `subscription_id`.
pub fn get_azure_subscription_name(context: &Context, subscription_id: &str) -> (name: Option<
    String,
>)
    ensures
        match name {
            Some(name) => subscription_name(context@, subscription_id@) == Some(name@),
            None => subscription_name(context@, subscription_id@) is None,
        },
{
    match read_all_records(context) {
        Some(records) => find_subscription_name(&records, subscription_id),
        None => None,
    }
}

/// The active subscription of a context with its name: both the identifier
/// and a subscription of that identifier have to be found.
pub open spec fn resolved(context: ContextView) -> Option<(Seq<char>, Seq<char>)> {
    match subscription_id(context) {
        Some(id) => match subscription_name(context, id) {
            Some(name) => Some((id, name)),
            None => None,
        },
        None => None,
    }
}

/// Resolves the active subscription.
pub fn resolve(context: &Context) -> (subscription: Option<Subscription>)
    ensures
        match subscription {
            Some(subscription) => resolved(context@) == Some(subscription@),
            None => resolved(context@) is None,
        },
{
    let id = match get_azure_subscription_id(context) {
        Some(id) => id,
        None => {
            return None;
        },
    };
    match get_azure_subscription_name(context, id.as_str()) {
        Some(name) => Some(Subscription { id, name }),
        None => None,
    }
}

/// The segment before it is drawn: the template and what its variables
/// stand for.
#[derive(Clone, Debug)]
pub struct Module<'a> {
    /// Name of the segment.
    pub name: &'static str,
    /// Settings that the segment is drawn with.
    pub config: AzureConfig<'a>,
    /// The subscription that the segment shows.
    pub subscription: Subscription,
}

/// A segment as plain values.
pub struct ModuleView {
    pub name: Seq<char>,
    pub config: AzureConfigView,
    pub subscription: (Seq<char>, Seq<char>),
}

impl<'a> View for Module<'a> {
    type V = ModuleView;

    open spec fn view(&self) -> ModuleView {
        ModuleView { name: self.name@, config: self.config@, subscription: self.subscription@ }
    }
}

/// The segment of a context: there is one exactly when the active
/// subscription resolves, and it carries the settings of the context
/// unchanged. Whether the settings switch the segment off has no part in it.
pub open spec fn module_of(context: ContextView) -> Option<ModuleView> {
    match resolved(context) {
        Some(subscription) => Some(
            ModuleView { name: MODULE_NAME@, config: context.config, subscription },
        ),
        None => None,
    }
}

/// Builds the Azure segment of a context.
pub fn module<'a>(context: &Context<'a>) -> (segment: Option<Module<'a>>)
    ensures
        match segment {
            Some(segment) => module_of(context@) == Some(segment@),
            None => module_of(context@) is None,
        },
{
    match resolve(context) {
        Some(subscription) => Some(
            Module { name: MODULE_NAME, config: context.config, subscription },
        ),
        None => None,
    }
}

/// What `variable` stands for where only `known` has a meaning, namely
/// `value`.
pub open spec fn binding(known: Seq<char>, value: Seq<char>, variable: Seq<char>) -> Option<
    Seq<char>,
> {
    if variable == known {
        Some(value)
    } else {
        None
    }
}

impl<'a> Module<'a> {
    /// The template that the engine renders.
    pub fn format(&self) -> (format: &str)
        ensures
            format@ == self@.config.format,
    {
        self.config.format
    }

    /// What the meta variable `variable` stands for: the glyph for `symbol`,
    /// nothing for any other name.
    pub fn meta_variable(&self, variable: &str) -> (value: Option<&str>)
        ensures
            match value {
                Some(value) => binding(SYMBOL_VARIABLE@, self@.config.symbol, variable@) == Some(
                    value@,
                ),
                None => binding(SYMBOL_VARIABLE@, self@.config.symbol, variable@) is None,
            },
    {
        if str_eq(variable, SYMBOL_VARIABLE) {
            Some(self.config.symbol)
        } else {
            None
        }
    }

    /// What the style variable `variable` stands for: the configured style
    /// for `style`, nothing for any other name.
    pub fn style_variable(&self, variable: &str) -> (value: Option<&str>)
        ensures
            match value {
                Some(value) => binding(STYLE_VARIABLE@, self@.config.style, variable@) == Some(
                    value@,
                ),
                None => binding(STYLE_VARIABLE@, self@.config.style, variable@) is None,
            },
    {
        if str_eq(variable, STYLE_VARIABLE) {
            Some(self.config.style)
        } else {
            None
        }
    }

    /// What the content variable `variable` stands for: the name of the
    /// subscription for `subscription`, nothing for any other name.
    pub fn content_variable(&self, variable: &str) -> (value: Option<&str>)
        ensures
            match value {
                Some(value) => binding(SUBSCRIPTION_VARIABLE@, self@.subscription.1, variable@)
                    == Some(value@),
                None => binding(SUBSCRIPTION_VARIABLE@, self@.subscription.1, variable@) is None,
            },
    {
        if str_eq(variable, SUBSCRIPTION_VARIABLE) {
            Some(self.subscription.name.as_str())
        } else {
            None
        }
    }
}

/// How a render ended: with the text of the segment, or with no segment and
/// a warning for the log.
#[derive(Clone, Debug, PartialEq, Eq)]
pub enum Rendered {
    Segment(String),
    Omitted { warning: String },
}

/// A render as plain values.
pub enum RenderedView {
    Segment(Seq<char>),
    Omitted { warning: Seq<char> },
}

impl View for Rendered {
    type V = RenderedView;

    open spec fn view(&self) -> RenderedView {
        match self {
            Rendered::Segment(text) => RenderedView::Segment(text@),
            Rendered::Omitted { warning } => RenderedView::Omitted { warning: warning@ },
        }
    }
}

/// What becomes of the engine's answer: its text is the segment; its error
/// leaves the segment out and is reported in a warning.
pub open spec fn segment_of(parsed: Result<Seq<char>, Seq<char>>) -> RenderedView {
    match parsed {
        Ok(text) => RenderedView::Segment(text),
        Err(error) => RenderedView::Omitted { warning: WARNING_PREFIX@ + error },
    }
}

/// Turns the engine's answer into the outcome of the render. An error of
/// the engine never fails the caller.
pub fn set_segments(parsed: Result<String, String>) -> (rendered: Rendered)
    ensures
        rendered@ == segment_of(
            match parsed {
                Ok(text) => Ok(text@),
                Err(error) => Err(error@),
            },
        ),
{
    match parsed {
        Ok(text) => Rendered::Segment(text),
        Err(error) => {
            let mut warning = WARNING_PREFIX.to_owned();
            warning.append(error.as_str());
            Rendered::Omitted { warning }
        },
    }
}

impl Rendered {
    /// The text of the segment, where there is one.
    pub fn segment(&self) -> (text: Option<&str>)
        ensures
            match text {
                Some(text) => self@ == RenderedView::Segment(text@),
                None => self@ is Omitted,
            },
    {
        match self {
            Rendered::Segment(text) => Some(text.as_str()),
            Rendered::Omitted { .. } => None,
        }
    }

    /// The warning to log, where the segment was left out.
    pub fn warning(&self) -> (warning: Option<&str>)
        ensures
            match warning {
                Some(warning) => self@ == (RenderedView::Omitted { warning: warning@ }),
                None => self@ is Segment,
            },
    {
        match self {
            Rendered::Segment(_) => None,
            Rendered::Omitted { warning } => Some(warning.as_str()),
        }
    }
}

} // verus!
