//! What holds of the three renderings of a list of responses.
//!
//! The enumeration and the two resolvers are written by separate functions.
//! The statements below say in which sense they agree: every response has one
//! entry in each, at the same place, under the same name, and with the same
//! answer to whether it carries a payload.

use crate::case::{constant_case_of, pascal_case_of};
use crate::path::{
    listed, Path, PathView, StatusVariantView, ARM_INDENT, CASE_INDENT, MATCH_CLOSING,
    MATCH_OPENING,
};
use crate::printer::GeneratedModule;
use vstd::prelude::*;

verus! {

/// The lines of two lists, one after the other, are the lines of the joined
/// list.
pub proof fn lemma_listed_concat(first: Seq<Seq<char>>, second: Seq<Seq<char>>, indent: Seq<char>)
    ensures
        listed(first + second, indent) == listed(first, indent) + listed(second, indent),
    decreases second.len(),
{
    if second.len() == 0 {
        assert(first + second =~= first);
        assert(listed(first, indent) + listed(second, indent) =~= listed(first, indent));
    } else {
        lemma_listed_concat(first, second.drop_last(), indent);
        assert((first + second).drop_last() =~= first + second.drop_last());
        assert((first + second).last() == second.last());
        assert(listed(first + second, indent) =~= listed(first, indent) + listed(second, indent));
    }
}

/// The line of the item at place `n` stands after the lines of the items before
/// it and before the lines of the items after it.
pub proof fn lemma_listed_keeps_order(items: Seq<Seq<char>>, indent: Seq<char>, n: int)
    requires
        0 <= n < items.len(),
    ensures
        listed(items, indent) == listed(items.take(n), indent) + indent + items[n] + ",\n"@
            + listed(items.skip(n + 1), indent),
{
    let one = seq![items[n]];
    assert(listed(one.drop_last(), indent) =~= Seq::<char>::empty());
    assert(listed(one, indent) =~= indent + items[n] + ",\n"@);
    assert(items =~= items.take(n) + one + items.skip(n + 1));
    lemma_listed_concat(items.take(n) + one, items.skip(n + 1), indent);
    lemma_listed_concat(items.take(n), one, indent);
    assert(listed(items, indent) =~= listed(items.take(n), indent) + indent + items[n] + ",\n"@
        + listed(items.skip(n + 1), indent));
}

/// The enumeration and both resolvers have one entry for each response, and
/// the entry at each place is the one written for the response at that place.
pub proof fn lemma_one_entry_per_response(path: PathView)
    ensures
        path.enum_cases().len() == path.responses.len(),
        path.status_arms().len() == path.responses.len(),
        path.content_type_arms().len() == path.responses.len(),
        forall|n: int|
            0 <= n < path.responses.len() ==> {
                &&& #[trigger] path.enum_cases()[n] == path.responses[n].enum_case()
                &&& #[trigger] path.status_arms()[n] == path.responses[n].status_arm()
                &&& #[trigger] path.content_type_arms()[n]
                    == path.responses[n].content_type_arm()
            },
{
}

/// In the text of the enumeration and of both resolvers, the entry of the
/// response at place `n` follows the entries of the responses before it and
/// precedes those of the responses after it.
pub proof fn lemma_responses_keep_their_order(path: PathView, n: int)
    requires
        0 <= n < path.responses.len(),
    ensures
        path.enum_variants() == listed(path.enum_cases().take(n), CASE_INDENT@) + CASE_INDENT@
            + path.responses[n].enum_case() + ",\n"@ + listed(
            path.enum_cases().skip(n + 1),
            CASE_INDENT@,
        ),
        path.status_match() == MATCH_OPENING@ + (listed(path.status_arms().take(n), ARM_INDENT@)
            + ARM_INDENT@ + path.responses[n].status_arm() + ",\n"@ + listed(
            path.status_arms().skip(n + 1),
            ARM_INDENT@,
        )) + MATCH_CLOSING@,
        path.content_type_match() == MATCH_OPENING@ + (listed(
            path.content_type_arms().take(n),
            ARM_INDENT@,
        ) + ARM_INDENT@ + path.responses[n].content_type_arm() + ",\n"@ + listed(
            path.content_type_arms().skip(n + 1),
            ARM_INDENT@,
        )) + MATCH_CLOSING@,
{
    lemma_listed_keeps_order(path.enum_cases(), CASE_INDENT@, n);
    lemma_listed_keeps_order(path.status_arms(), ARM_INDENT@, n);
    lemma_listed_keeps_order(path.content_type_arms(), ARM_INDENT@, n);
}

/// Without a given name the identifier of a variant is the name of its status
/// in Pascal case; with one it is the given name in Pascal case. The status
/// constant is the name of the status in constant case either way, so giving,
/// changing or removing the name leaves the constant as it was.
pub proof fn lemma_given_name_changes_the_identifier_only(
    variant: StatusVariantView,
    given: Option<Seq<char>>,
)
    ensures
        variant.x_variant_name is None ==> variant.display_name() == pascal_case_of(
            variant.status.text(),
        ),
        variant.x_variant_name matches Some(name) ==> variant.display_name() == pascal_case_of(
            name,
        ),
        variant.status_constant() == constant_case_of(variant.status.text()),
        (StatusVariantView { x_variant_name: given, ..variant }).status_constant()
            == variant.status_constant(),
        variant.status_arm() == variant.pattern() + " => StatusCode::"@ + constant_case_of(
            variant.status.text(),
        ),
{
}

/// A variant with a payload type is written with that type in the
/// enumeration, after its identifier, and both resolvers match it by the same
/// identifier with the payload ignored.
pub proof fn lemma_payload_is_carried_and_ignored(variant: StatusVariantView, payload: Seq<char>)
    requires
        variant.response_type_name == Some(payload),
    ensures
        variant.enum_case() == (StatusVariantView { response_type_name: None, ..variant }).enum_case()
            + "(responses::"@ + payload + ")"@,
        variant.pattern() == "Self::"@ + variant.display_name() + "(_)"@,
        variant.status_arm() == "Self::"@ + variant.display_name() + "(_)"@ + " => StatusCode::"@
            + variant.status_constant(),
        variant.content_type_arm() == "Self::"@ + variant.display_name() + "(_)"@ + " => "@
            + variant.content_type_marker(),
{
}

/// A variant without a payload type is written as a bare identifier in the
/// enumeration, and both resolvers match it by that identifier alone.
pub proof fn lemma_bare_variant_is_matched_bare(variant: StatusVariantView)
    requires
        variant.response_type_name is None,
    ensures
        variant.enum_case() == (match variant.description {
            Some(_) => variant.doc_attribute() + " "@,
            None => Seq::empty(),
        }) + variant.display_name(),
        variant.pattern() == "Self::"@ + variant.display_name(),
        variant.status_arm() == "Self::"@ + variant.display_name() + " => StatusCode::"@
            + variant.status_constant(),
        variant.content_type_arm() == "Self::"@ + variant.display_name() + " => "@
            + variant.content_type_marker(),
{
}

/// A variant without a content type resolves to `None`; one with a content
/// type resolves to `Some` of the identifier of that type.
pub proof fn lemma_content_type_is_resolved(variant: StatusVariantView)
    ensures
        variant.content_type is None ==> variant.content_type_marker() == "None"@,
        variant.content_type matches Some(t) ==> variant.content_type_marker()
            == "Some(ContentType::"@ + t.text() + ")"@,
        variant.content_type_arm() == variant.pattern() + " => "@ + variant.content_type_marker(),
{
}

/// Writing reads nothing but what the operation holds: two operations that
/// hold the same write the same module, and two texts written for one
/// operation are the same text.
pub proof fn lemma_module_is_written_the_same_again(
    path: Path,
    again: Path,
    first: Seq<char>,
    second: Seq<char>,
)
    requires
        path@ == again@,
        first == path@.module_text(),
        second == again@.module_text(),
    ensures
        first == second,
{
}

/// Writing reads nothing but what the document holds: two documents that hold
/// the same are written as the same text.
pub proof fn lemma_document_is_written_the_same_again(
    module: GeneratedModule,
    again: GeneratedModule,
    first: Seq<char>,
    second: Seq<char>,
)
    requires
        module@ == again@,
        first == module@.text(),
        second == again@.text(),
    ensures
        first == second,
{
}

} // verus!
