//! What holds of resolution as a whole, proved from the definitions that the
//! functions' contracts are stated in.

use crate::context::{first_value, lemma_first_value, lemma_first_value_at, ContextView};
use crate::json_document::{member_of, Json};
use crate::modules::azure::{
    all_records, binding, config_file_location, document_records, file_document, module_of,
    name_among, profile_document, records_of, resolved, subscription_id, subscription_name,
    ModuleView, RecordView,
    CLOUD_CONFIG_FILE, CONFIG_DIR_VARIABLE, MODULE_NAME, PROFILE_FILE, STYLE_VARIABLE,
    SUBSCRIPTIONS_FIELD, SUBSCRIPTION_VARIABLE, SYMBOL_VARIABLE,
};
use crate::text::{bom, has_bom, join, without_bom};
use vstd::prelude::*;

verus! {

/// A cloud configuration that names `id` and a profile whose first
/// subscription of that identifier is called `name` resolve to the two
/// together. The segment then carries the settings of the context, and its
/// three variables stand for the glyph, the style and `name`.
pub proof fn lemma_listed_subscription_resolves(
    context: ContextView,
    records: Seq<RecordView>,
    index: int,
    id: Seq<char>,
    name: Seq<char>,
)
    requires
        subscription_id(context) == Some(id),
        all_records(context) == Some(records),
        0 <= index < records.len(),
        records[index] == (id, Some(name)),
        forall|j: int| 0 <= j < index ==> (#[trigger] records[j]).0 != id,
    ensures
        resolved(context) == Some((id, name)),
        module_of(context) == Some(
            ModuleView { name: MODULE_NAME@, config: context.config, subscription: (id, name) },
        ),
        binding(SUBSCRIPTION_VARIABLE@, name, SUBSCRIPTION_VARIABLE@) == Some(name),
        binding(SYMBOL_VARIABLE@, context.config.symbol, SYMBOL_VARIABLE@) == Some(
            context.config.symbol,
        ),
        binding(STYLE_VARIABLE@, context.config.style, STYLE_VARIABLE@) == Some(
            context.config.style,
        ),
{
    lemma_first_value_at(records, id, index);
}

/// A profile whose array of subscriptions is empty resolves to nothing,
/// whatever the cloud configuration names.
pub proof fn lemma_empty_profile_resolves_to_nothing(
    context: ContextView,
    dir: Seq<char>,
    document: Json,
)
    requires
        config_file_location(context) == Some(dir),
        file_document(context, join(dir, PROFILE_FILE@)) == Some(document),
        member_of(document, SUBSCRIPTIONS_FIELD@) == Json::Array(Seq::empty()),
    ensures
        all_records(context) == Some(Seq::<RecordView>::empty()),
        resolved(context) is None,
        module_of(context) is None,
{
    assert(records_of(Seq::<Json>::empty()) == Seq::<RecordView>::empty());
}

/// A context whose configuration directory lacks the cloud configuration
/// resolves to nothing, whatever else it holds: all the more one whose
/// directory holds neither file, and one that has no directory at all.
pub proof fn lemma_missing_files_resolve_to_nothing(context: ContextView)
    requires
        forall|dir: Seq<char>|
            config_file_location(context) == Some(dir) ==> first_value(
                context.files,
                #[trigger] join(dir, CLOUD_CONFIG_FILE@),
            ) is None,
    ensures
        subscription_id(context) is None,
        resolved(context) is None,
        module_of(context) is None,
{
    match config_file_location(context) {
        Some(dir) => {
            assert(first_value(context.files, join(dir, CLOUD_CONFIG_FILE@)) is None);
        },
        None => {},
    }
}

/// A context whose configuration directory lacks the profile resolves to
/// nothing, whatever the cloud configuration names.
pub proof fn lemma_missing_profile_resolves_to_nothing(context: ContextView)
    requires
        forall|dir: Seq<char>|
            config_file_location(context) == Some(dir) ==> first_value(
                context.files,
                #[trigger] join(dir, PROFILE_FILE@),
            ) is None,
    ensures
        all_records(context) is None,
        resolved(context) is None,
        module_of(context) is None,
{
    match config_file_location(context) {
        Some(dir) => {
            assert(first_value(context.files, join(dir, PROFILE_FILE@)) is None);
        },
        None => {},
    }
}

/// A profile that begins with a byte-order mark is the same document as the
/// bytes that follow the mark, as long as those do not begin with a mark of
/// their own.
pub proof fn lemma_bom_tolerance(bytes: Seq<u8>)
    requires
        !has_bom(bytes),
    ensures
        profile_document(bom() + bytes) == profile_document(bytes),
        (match profile_document(bom() + bytes) {
            Some(document) => document_records(document),
            None => None,
        }) == (match profile_document(bytes) {
            Some(document) => document_records(document),
            None => None,
        }),
{
    let marked = bom() + bytes;
    assert(has_bom(marked));
    assert(marked.skip(3) =~= bytes);
}

/// Where no subscription of the profile has the identifier that the cloud
/// configuration names, resolution yields nothing.
pub proof fn lemma_no_match_resolves_to_nothing(
    context: ContextView,
    records: Seq<RecordView>,
    id: Seq<char>,
)
    requires
        subscription_id(context) == Some(id),
        all_records(context) == Some(records),
        forall|i: int| 0 <= i < records.len() ==> (#[trigger] records[i]).0 != id,
    ensures
        name_among(records, id) is None,
        subscription_name(context, id) is None,
        resolved(context) is None,
        module_of(context) is None,
{
    lemma_first_value(records, id);
}

/// Of two records with one identifier the earlier gives the name: the
/// later one is never looked at, so the outcome is the same without it.
pub proof fn lemma_first_duplicate_wins(
    records: Seq<RecordView>,
    first: int,
    second: int,
    id: Seq<char>,
)
    requires
        0 <= first < second < records.len(),
        records[first].0 == id,
        records[second].0 == id,
        forall|j: int| 0 <= j < first ==> (#[trigger] records[j]).0 != id,
    ensures
        name_among(records, id) == records[first].1,
        name_among(records.remove(second), id) == records[first].1,
{
    lemma_first_value_at(records, id, first);
    let without = records.remove(second);
    assert(without[first] == records[first]);
    assert forall|j: int| 0 <= j < first implies (#[trigger] without[j]).0 != id by {
        assert(without[j] == records[j]);
    }
    lemma_first_value_at(without, id, first);
}

/// With the override variable set to a directory, resolution reads the two
/// files of that directory and nothing else: two contexts that agree on the
/// override, on those two files and on the settings give the same segment,
/// whatever their home directories and their other files are.
pub proof fn lemma_override_precedence(left: ContextView, right: ContextView, dir: Seq<char>)
    requires
        dir.len() > 0,
        first_value(left.env, CONFIG_DIR_VARIABLE@) == Some(dir),
        first_value(right.env, CONFIG_DIR_VARIABLE@) == Some(dir),
        first_value(left.files, join(dir, CLOUD_CONFIG_FILE@)) == first_value(
            right.files,
            join(dir, CLOUD_CONFIG_FILE@),
        ),
        first_value(left.files, join(dir, PROFILE_FILE@)) == first_value(
            right.files,
            join(dir, PROFILE_FILE@),
        ),
        left.config == right.config,
    ensures
        config_file_location(left) == Some(dir),
        config_file_location(right) == Some(dir),
        resolved(left) == resolved(right),
        module_of(left) == module_of(right),
{
}

} // verus!
