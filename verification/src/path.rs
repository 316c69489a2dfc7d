//! The responses of one operation and the source text written for them.
//!
//! Every response variant is written three times: as a case of the `Response`
//! enumeration, as an arm of the match that resolves the status, and as an arm
//! of the match that resolves the content type. All three are derived from the
//! same view of the variant, and the blocks that hold them walk the variants in
//! the same order.
//!
//! Identifiers are cased by `inflections`. Every function that cases one hands
//! it on to a function that takes the identifier as an argument and says
//! exactly what is written around it.

use crate::case::{
    constant_case_of, pascal_case_of, snake_case_of, to_constant_case, to_pascal_case,
    to_snake_case,
};
use crate::literal::{quote, string_literal};
use crate::status::ResponseStatus;
use vstd::prelude::*;
use vstd::string::*;

verus! {

/// The encoding of a response body.
#[derive(Clone, Copy, Debug, PartialEq, Eq, Structural)]
pub enum ContentType {
    Json,
}

impl ContentType {
    /// The identifier that names the encoding in the emitted text.
    pub open spec fn text(self) -> Seq<char> {
        match self {
            ContentType::Json => "Json"@,
        }
    }

    /// Writes the identifier that names the encoding.
    pub fn print(&self) -> (text: String)
        ensures
            text@ == self.text(),
    {
        match self {
            ContentType::Json => String::from_str("Json"),
        }
    }
}

/// One possible response of an operation.
pub struct StatusVariant {
    /// The HTTP status of the response.
    pub status: ResponseStatus,
    /// The name of the payload type, which is defined under
    /// `components::responses`. It is written as it is given.
    pub response_type_name: Option<String>,
    /// What the documentation of the case says.
    pub description: Option<String>,
    /// The content type of the body. A response has at most one.
    pub content_type: Option<ContentType>,
    /// A name for the variant, in place of the name of the status.
    pub x_variant_name: Option<String>,
}

/// What a [`StatusVariant`] holds, with texts as sequences of characters.
pub struct StatusVariantView {
    pub status: ResponseStatus,
    pub response_type_name: Option<Seq<char>>,
    pub description: Option<Seq<char>>,
    pub content_type: Option<ContentType>,
    pub x_variant_name: Option<Seq<char>>,
}

/// The characters of an optional text.
pub open spec fn text_of(text: Option<String>) -> Option<Seq<char>> {
    match text {
        Some(t) => Some(t@),
        None => None,
    }
}

impl View for StatusVariant {
    type V = StatusVariantView;

    open spec fn view(&self) -> StatusVariantView {
        StatusVariantView {
            status: self.status,
            response_type_name: text_of(self.response_type_name),
            description: text_of(self.description),
            content_type: self.content_type,
            x_variant_name: text_of(self.x_variant_name),
        }
    }
}

/// The attribute that documents a case; empty without a description.
pub open spec fn doc_attribute_text(description: Option<Seq<char>>) -> Seq<char> {
    match description {
        Some(text) => "#[doc = "@ + string_literal(text) + "]"@,
        None => Seq::empty(),
    }
}

/// The expression for the content type of a response.
pub open spec fn content_type_marker_text(content_type: Option<ContentType>) -> Seq<char> {
    match content_type {
        Some(t) => "Some(ContentType::"@ + t.text() + ")"@,
        None => "None"@,
    }
}

/// The pattern that matches the variant called `name` in a resolver. A payload
/// is matched and ignored.
pub open spec fn pattern_text(name: Seq<char>, has_payload: bool) -> Seq<char> {
    if has_payload {
        "Self::"@ + name + "(_)"@
    } else {
        "Self::"@ + name
    }
}

/// The case of the enumeration for the variant called `name`: the
/// documentation, if any, then the name, then the payload type, if any.
pub open spec fn enum_case_text(
    description: Option<Seq<char>>,
    name: Seq<char>,
    payload: Option<Seq<char>>,
) -> Seq<char> {
    let documented = match description {
        Some(_) => doc_attribute_text(description) + " "@,
        None => Seq::empty(),
    };
    match payload {
        Some(payload) => documented + name + "(responses::"@ + payload + ")"@,
        None => documented + name,
    }
}

/// The arm that resolves the variant called `name` to the status constant
/// called `constant`.
pub open spec fn status_arm_text(name: Seq<char>, has_payload: bool, constant: Seq<char>) -> Seq<
    char,
> {
    pattern_text(name, has_payload) + " => StatusCode::"@ + constant
}

/// The arm that resolves the variant called `name` to its content type.
pub open spec fn content_type_arm_text(
    name: Seq<char>,
    has_payload: bool,
    content_type: Option<ContentType>,
) -> Seq<char> {
    pattern_text(name, has_payload) + " => "@ + content_type_marker_text(content_type)
}

impl StatusVariantView {
    /// The identifier of the variant in all three renderings: the given name if
    /// there is one, else the name of the status, in Pascal case.
    pub open spec fn display_name(self) -> Seq<char> {
        pascal_case_of(
            match self.x_variant_name {
                Some(given) => given,
                None => self.status.text(),
            },
        )
    }

    /// The identifier of the status constant: the name of the status in constant
    /// case. A given name plays no part in it.
    pub open spec fn status_constant(self) -> Seq<char> {
        constant_case_of(self.status.text())
    }

    /// The attribute that documents the variant; empty without a description.
    pub open spec fn doc_attribute(self) -> Seq<char> {
        doc_attribute_text(self.description)
    }

    /// The expression for the content type of the variant.
    pub open spec fn content_type_marker(self) -> Seq<char> {
        content_type_marker_text(self.content_type)
    }

    /// The pattern that matches the variant in a resolver.
    pub open spec fn pattern(self) -> Seq<char> {
        pattern_text(self.display_name(), self.response_type_name is Some)
    }

    /// The case of the enumeration.
    pub open spec fn enum_case(self) -> Seq<char> {
        enum_case_text(self.description, self.display_name(), self.response_type_name)
    }

    /// The arm that resolves the status of the variant.
    pub open spec fn status_arm(self) -> Seq<char> {
        status_arm_text(
            self.display_name(),
            self.response_type_name is Some,
            self.status_constant(),
        )
    }

    /// The arm that resolves the content type of the variant.
    pub open spec fn content_type_arm(self) -> Seq<char> {
        content_type_arm_text(
            self.display_name(),
            self.response_type_name is Some,
            self.content_type,
        )
    }
}

impl StatusVariant {
    /// Writes the identifier of the variant.
    pub fn name(&self) -> (name: String)
        ensures
            name@ == self@.display_name(),
            self.x_variant_name is None ==> name@ == pascal_case_of(self.status.text()),
            self.x_variant_name matches Some(given) ==> name@ == pascal_case_of(given@),
    {
        match &self.x_variant_name {
            Some(given) => to_pascal_case(given.as_str()),
            None => {
                let status = self.status.to_string();
                to_pascal_case(status.as_str())
            },
        }
    }

    /// Writes the attribute that documents the variant.
    pub fn description(&self) -> (attribute: String)
        ensures
            attribute@ == self@.doc_attribute(),
    {
        match &self.description {
            Some(text) => {
                let literal = quote(text.as_str());
                let mut attribute = String::from_str("#[doc = ");
                attribute.append(literal.as_str());
                attribute.append("]");
                attribute
            },
            None => String::new(),
        }
    }

    /// Writes the expression for the content type of the variant.
    pub fn content_type(&self) -> (marker: String)
        ensures
            marker@ == self@.content_type_marker(),
            self.content_type is None ==> marker@ == "None"@,
            self.content_type matches Some(t) ==> marker@ == "Some(ContentType::"@ + t.text()
                + ")"@,
    {
        match &self.content_type {
            Some(t) => {
                let content = t.print();
                let mut marker = String::from_str("Some(ContentType::");
                marker.append(content.as_str());
                marker.append(")");
                marker
            },
            None => String::from_str("None"),
        }
    }

    /// Writes the pattern that matches the variant in a resolver, under the
    /// identifier `variant_name`.
    pub fn print_pattern_named(&self, variant_name: &str) -> (pattern: String)
        ensures
            pattern@ == pattern_text(variant_name@, self.response_type_name is Some),
    {
        let mut pattern = String::from_str("Self::");
        pattern.append(variant_name);
        if self.response_type_name.is_some() {
            pattern.append("(_)");
        }
        pattern
    }

    /// Writes the case of the enumeration under the identifier `variant_name`.
    pub fn print_enum_variant_named(&self, variant_name: &str) -> (case: String)
        ensures
            case@ == enum_case_text(self@.description, variant_name@, self@.response_type_name),
    {
        let mut case = self.description();
        if self.description.is_some() {
            case.append(" ");
        }
        case.append(variant_name);
        if let Some(response) = &self.response_type_name {
            case.append("(responses::");
            case.append(response.as_str());
            case.append(")");
        }
        case
    }

    /// Writes the arm that resolves the variant, under the identifier
    /// `variant_name`, to the status constant `status`.
    pub fn print_status_variant_named(&self, variant_name: &str, status: &str) -> (arm: String)
        ensures
            arm@ == status_arm_text(variant_name@, self.response_type_name is Some, status@),
    {
        let mut arm = self.print_pattern_named(variant_name);
        arm.append(" => StatusCode::");
        arm.append(status);
        arm
    }

    /// Writes the arm that resolves the variant, under the identifier
    /// `variant_name`, to its content type.
    pub fn print_content_type_variant_named(&self, variant_name: &str) -> (arm: String)
        ensures
            arm@ == content_type_arm_text(
                variant_name@,
                self.response_type_name is Some,
                self.content_type,
            ),
    {
        let content_type = self.content_type();
        let mut arm = self.print_pattern_named(variant_name);
        arm.append(" => ");
        arm.append(content_type.as_str());
        arm
    }

    /// Writes the case of the enumeration.
    pub fn print_enum_variant(&self) -> (case: String)
        ensures
            case@ == self@.enum_case(),
    {
        let variant_name = self.name();
        self.print_enum_variant_named(variant_name.as_str())
    }

    /// Writes the arm that resolves the status of the variant.
    pub fn print_status_variant(&self) -> (arm: String)
        ensures
            arm@ == self@.status_arm(),
    {
        let variant_name = self.name();
        let status = to_constant_case(self.status.to_string().as_str());
        self.print_status_variant_named(variant_name.as_str(), status.as_str())
    }

    /// Writes the arm that resolves the content type of the variant.
    pub fn print_content_type_variant(&self) -> (arm: String)
        ensures
            arm@ == self@.content_type_arm(),
    {
        let variant_name = self.name();
        self.print_content_type_variant_named(variant_name.as_str())
    }
}

/// The responses of one operation, in the order in which they are written.
pub struct ResponseEnum {
    pub responses: Vec<StatusVariant>,
}

impl View for ResponseEnum {
    type V = Seq<StatusVariantView>;

    open spec fn view(&self) -> Seq<StatusVariantView> {
        self.responses@.map_values(|v: StatusVariant| v@)
    }
}

/// Whether no two of the responses have the same identifier. Where two have,
/// the enumeration written for them has two cases of one name.
pub open spec fn names_are_unique(responses: Seq<StatusVariantView>) -> bool {
    forall|i: int, j: int|
        0 <= i < j < responses.len() ==> responses[i].display_name()
            != responses[j].display_name()
}

impl ResponseEnum {
    /// Writes the identifier of each response, in their order.
    pub fn names(&self) -> (names: Vec<String>)
        ensures
            names@.len() == self@.len(),
            forall|i: int| 0 <= i < self@.len() ==> names@[i]@ == self@[i].display_name(),
    {
        let mut names: Vec<String> = Vec::new();
        for status in it: self.responses.iter()
            invariant
                it.seq().unref() == self.responses@,
                names@.len() == it.index(),
                forall|i: int| 0 <= i < it.index() ==> names@[i]@ == self@[i].display_name(),
        {
            let name = status.name();
            names.push(name);
        }
        names
    }

    /// Tells whether no two of the responses have the same identifier. The
    /// writing functions do not ask for it: a caller that needs an enumeration
    /// without a clash of names checks this first.
    pub fn has_unique_names(&self) -> (unique: bool)
        ensures
            unique == names_are_unique(self@),
    {
        let names = self.names();
        let mut later: usize = 0;
        while later < names.len()
            invariant
                later <= names.len(),
                names@.len() == self@.len(),
                forall|i: int| 0 <= i < self@.len() ==> names@[i]@ == self@[i].display_name(),
                forall|i: int, j: int|
                    0 <= i < j < later ==> self@[i].display_name() != self@[j].display_name(),
            decreases names.len() - later,
        {
            let mut earlier: usize = 0;
            while earlier < later
                invariant
                    earlier <= later < names.len(),
                    names@.len() == self@.len(),
                    forall|i: int| 0 <= i < self@.len() ==> names@[i]@ == self@[i].display_name(),
                    forall|i: int|
                        0 <= i < earlier ==> self@[i].display_name() != self@[later as int].display_name(),
                decreases later - earlier,
            {
                if names[earlier] == names[later] {
                    assert(self@[earlier as int].display_name() == self@[later as int].display_name());
                    return false;
                }
                earlier += 1;
            }
            later += 1;
        }
        true
    }
}

/// One operation: its name and its responses.
pub struct Path {
    pub name: String,
    pub response: ResponseEnum,
}

/// What a [`Path`] holds, with texts as sequences of characters.
pub struct PathView {
    pub name: Seq<char>,
    pub responses: Seq<StatusVariantView>,
}

impl View for Path {
    type V = PathView;

    open spec fn view(&self) -> PathView {
        PathView { name: self.name@, responses: self.response@ }
    }
}

/// The indentation of a case of the enumeration.
pub const CASE_INDENT: &'static str = "        ";

/// The indentation of an arm of a resolver.
pub const ARM_INDENT: &'static str = "                ";

/// What opens a resolver.
pub const MATCH_OPENING: &'static str = "match self {\n";

/// What closes a resolver.
pub const MATCH_CLOSING: &'static str = "            }";

/// What stands between the name of the module and the cases of the enumeration.
pub const MODULE_OPENING: &'static str =
    " {\n    use super::components::responses;\n    use actix_swagger::{Answer, ContentType};\n    use actix_web::http::StatusCode;\n    use serde::Serialize;\n\n    #[derive(Debug, Serialize)]\n    #[serde(untagged)]\n    pub enum Response {\n";

/// What stands between the cases of the enumeration and the status resolver.
pub const ANSWER_OPENING: &'static str =
    "    }\n\n    impl Response {\n        #[inline]\n        pub fn answer(self) -> Answer<'static, Self> {\n            let status = ";

/// What stands between the two resolvers.
pub const ANSWER_MIDDLE: &'static str = ";\n            let content_type = ";

/// What follows the content type resolver.
pub const ANSWER_CLOSING: &'static str =
    ";\n\n            Answer::new(self).status(status).content_type(content_type)\n        }\n    }\n}\n";

/// The items written one per line, in order: each is indented by `indent` and
/// closed by a comma.
pub open spec fn listed(items: Seq<Seq<char>>, indent: Seq<char>) -> Seq<char>
    decreases items.len(),
{
    if items.len() == 0 {
        Seq::empty()
    } else {
        listed(items.drop_last(), indent) + indent + items.last() + ",\n"@
    }
}

/// Listing one more item adds one line after the lines of the others.
pub proof fn lemma_listed_push(items: Seq<Seq<char>>, item: Seq<char>, indent: Seq<char>)
    ensures
        listed(items.push(item), indent) == listed(items, indent) + indent + item + ",\n"@,
{
    assert(items.push(item).drop_last() =~= items);
}

/// The characters of each of the texts.
pub open spec fn texts(items: Seq<String>) -> Seq<Seq<char>> {
    items.map_values(|item: String| item@)
}

/// A resolver with the given arms.
pub open spec fn match_text(arms: Seq<Seq<char>>) -> Seq<char> {
    MATCH_OPENING@ + listed(arms, ARM_INDENT@) + MATCH_CLOSING@
}

/// The module called `module_name` around the body of the enumeration and the
/// two resolvers.
pub open spec fn module_text_of(
    module_name: Seq<char>,
    enum_variants: Seq<char>,
    status_match: Seq<char>,
    content_type_match: Seq<char>,
) -> Seq<char> {
    "pub mod "@ + module_name + MODULE_OPENING@ + enum_variants + ANSWER_OPENING@ + status_match
        + ANSWER_MIDDLE@ + content_type_match + ANSWER_CLOSING@
}

/// Writes the items one per line, in order: each is indented by `indent` and
/// closed by a comma.
pub fn print_list(items: &Vec<String>, indent: &str) -> (text: String)
    ensures
        text@ == listed(texts(items@), indent@),
{
    let mut text = String::new();
    for item in it: items.iter()
        invariant
            it.seq().unref() == items@,
            text@ == listed(texts(items@).take(it.index()), indent@),
    {
        proof {
            let all = texts(items@);
            assert(all.take(it.index() + 1) =~= all.take(it.index()).push(item@));
            lemma_listed_push(all.take(it.index()), item@, indent@);
        }
        text.append(indent);
        text.append(item.as_str());
        text.append(",\n");
    }
    proof {
        let all = texts(items@);
        assert(all.take(all.len() as int) =~= all);
    }
    text
}

/// Writes a resolver with the given arms.
pub fn print_match(arms: &Vec<String>) -> (text: String)
    ensures
        text@ == match_text(texts(arms@)),
{
    let listed_arms = print_list(arms, ARM_INDENT);
    let mut text = String::from_str(MATCH_OPENING);
    text.append(listed_arms.as_str());
    text.append(MATCH_CLOSING);
    text
}

/// Writes the module called `module_name` around the body of the enumeration
/// and the two resolvers.
pub fn print_module(
    module_name: &str,
    enum_variants: &str,
    status_match: &str,
    content_type_match: &str,
) -> (text: String)
    ensures
        text@ == module_text_of(module_name@, enum_variants@, status_match@, content_type_match@),
{
    let mut text = String::from_str("pub mod ");
    text.append(module_name);
    text.append(MODULE_OPENING);
    text.append(enum_variants);
    text.append(ANSWER_OPENING);
    text.append(status_match);
    text.append(ANSWER_MIDDLE);
    text.append(content_type_match);
    text.append(ANSWER_CLOSING);
    text
}

impl PathView {
    /// The name of the module: the name of the operation in snake case.
    pub open spec fn module_name(self) -> Seq<char> {
        snake_case_of(self.name)
    }

    /// The cases of the enumeration, one for each response, in their order.
    pub open spec fn enum_cases(self) -> Seq<Seq<char>> {
        self.responses.map_values(|v: StatusVariantView| v.enum_case())
    }

    /// The arms of the status resolver, one for each response, in their order.
    pub open spec fn status_arms(self) -> Seq<Seq<char>> {
        self.responses.map_values(|v: StatusVariantView| v.status_arm())
    }

    /// The arms of the content type resolver, one for each response, in their
    /// order.
    pub open spec fn content_type_arms(self) -> Seq<Seq<char>> {
        self.responses.map_values(|v: StatusVariantView| v.content_type_arm())
    }

    /// The body of the enumeration.
    pub open spec fn enum_variants(self) -> Seq<char> {
        listed(self.enum_cases(), CASE_INDENT@)
    }

    /// The match that resolves the status of a response.
    pub open spec fn status_match(self) -> Seq<char> {
        match_text(self.status_arms())
    }

    /// The match that resolves the content type of a response.
    pub open spec fn content_type_match(self) -> Seq<char> {
        match_text(self.content_type_arms())
    }

    /// The module written for the operation.
    pub open spec fn module_text(self) -> Seq<char> {
        module_text_of(
            self.module_name(),
            self.enum_variants(),
            self.status_match(),
            self.content_type_match(),
        )
    }
}

impl Path {
    /// Writes the cases of the enumeration, one for each response, in their
    /// order.
    pub fn enum_cases(&self) -> (cases: Vec<String>)
        ensures
            texts(cases@) == self@.enum_cases(),
    {
        let mut cases: Vec<String> = Vec::new();
        for status in it: self.response.responses.iter()
            invariant
                it.seq().unref() == self.response.responses@,
                cases@.len() == it.index(),
                forall|n: int| 0 <= n < it.index() ==> cases@[n]@ == self@.responses[n].enum_case(),
        {
            let variant = status.print_enum_variant();
            cases.push(variant);
        }
        assert(texts(cases@) =~= self@.enum_cases());
        cases
    }

    /// Writes the arms of the status resolver, one for each response, in their
    /// order.
    pub fn status_arms(&self) -> (arms: Vec<String>)
        ensures
            texts(arms@) == self@.status_arms(),
    {
        let mut arms: Vec<String> = Vec::new();
        for status in it: self.response.responses.iter()
            invariant
                it.seq().unref() == self.response.responses@,
                arms@.len() == it.index(),
                forall|n: int| 0 <= n < it.index() ==> arms@[n]@ == self@.responses[n].status_arm(),
        {
            let variant = status.print_status_variant();
            arms.push(variant);
        }
        assert(texts(arms@) =~= self@.status_arms());
        arms
    }

    /// Writes the arms of the content type resolver, one for each response, in
    /// their order.
    pub fn content_type_arms(&self) -> (arms: Vec<String>)
        ensures
            texts(arms@) == self@.content_type_arms(),
    {
        let mut arms: Vec<String> = Vec::new();
        for status in it: self.response.responses.iter()
            invariant
                it.seq().unref() == self.response.responses@,
                arms@.len() == it.index(),
                forall|n: int|
                    0 <= n < it.index() ==> arms@[n]@ == self@.responses[n].content_type_arm(),
        {
            let variant = status.print_content_type_variant();
            arms.push(variant);
        }
        assert(texts(arms@) =~= self@.content_type_arms());
        arms
    }

    /// Writes the body of the enumeration: one case for each response.
    pub fn print_enum_variants(&self) -> (text: String)
        ensures
            text@ == self@.enum_variants(),
    {
        let cases = self.enum_cases();
        print_list(&cases, CASE_INDENT)
    }

    /// Writes the match that resolves the status: one arm for each response.
    pub fn print_status_variants(&self) -> (text: String)
        ensures
            text@ == self@.status_match(),
    {
        let arms = self.status_arms();
        print_match(&arms)
    }

    /// Writes the match that resolves the content type: one arm for each
    /// response.
    pub fn print_content_type_variants(&self) -> (text: String)
        ensures
            text@ == self@.content_type_match(),
    {
        let arms = self.content_type_arms();
        print_match(&arms)
    }

    /// Writes the module of the operation: the enumeration of its responses and
    /// the function that answers with one of them.
    pub fn print(&self) -> (text: String)
        ensures
            text@ == self@.module_text(),
    {
        let module_name = to_snake_case(self.name.as_str());
        let enum_variants = self.print_enum_variants();
        let status_match = self.print_status_variants();
        let content_type_match = self.print_content_type_variants();

        print_module(
            module_name.as_str(),
            enum_variants.as_str(),
            status_match.as_str(),
            content_type_match.as_str(),
        )
    }
}

/// Writes the module of the operation that is called `operation_name` and
/// answers with `responses`.
pub fn render_response_set(operation_name: String, responses: Vec<StatusVariant>) -> (text: String)
    ensures
        text@ == (PathView {
            name: operation_name@,
            responses: responses@.map_values(|v: StatusVariant| v@),
        }).module_text(),
{
    let path = Path { name: operation_name, response: ResponseEnum { responses } };
    path.print()
}

} // verus!
