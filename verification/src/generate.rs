//! Generation of the `Extract` implementation of a struct from the
//! annotations on its fields.
//!
//! The input is a description of the annotated type in plain values: names and
//! types as text, attribute arguments as a flat list of tokens. The output is
//! the source text of the implementation.

use vstd::prelude::*;

verus! {

/// One token of an attribute's arguments.
#[derive(Debug, Clone, PartialEq, Eq)]
pub enum TokenTree {
    /// A delimited group of further tokens.
    Group,
    /// An identifier, as written.
    Ident(String),
    /// A single punctuation character.
    Punct(char),
    /// A literal, as written: a string literal includes its quotes.
    Literal(String),
}

/// One attribute on a field.
#[derive(Debug, Clone, PartialEq, Eq)]
pub struct Attribute {
    /// The attribute's path, as written.
    pub path: String,
    /// The tokens between the parentheses that follow the path, if any do.
    pub arguments: Option<Vec<TokenTree>>,
}

/// One field of a struct.
#[derive(Debug, Clone, PartialEq, Eq)]
pub struct Field {
    /// The field's name; a field of a tuple struct has none.
    pub ident: Option<String>,
    /// The field's type, as written.
    pub ty: String,
    /// The field's attributes, in the order written.
    pub attrs: Vec<Attribute>,
}

/// The body of the annotated type.
#[derive(Debug, Clone, PartialEq, Eq)]
pub enum Data {
    Struct(Vec<Field>),
    Enum,
    Union,
}

/// The annotated type.
#[derive(Debug, Clone, PartialEq, Eq)]
pub struct DeriveInput {
    /// The type's name.
    pub ident: String,
    /// The type's body.
    pub data: Data,
}

/// Why no implementation can be generated.
#[derive(Debug, Clone, PartialEq, Eq)]
pub enum DeriveError {
    /// The annotated type is an enum.
    EnumNotImplemented,
    /// The annotated type is a union.
    UnionNotAllowed,
    /// A field has no name.
    UnnamedField,
    /// The named field carries no annotation.
    MissingAnnotation(String),
    /// The named field carries more than one annotation.
    RepeatedAnnotation(String),
    /// The annotation of the named field is not a literal, a comma and an
    /// identifier in parentheses.
    MalformedAnnotation(String),
}

/// A `DeriveError` with its field name as a sequence of characters.
pub enum Fault {
    EnumNotImplemented,
    UnionNotAllowed,
    UnnamedField,
    MissingAnnotation(Seq<char>),
    RepeatedAnnotation(Seq<char>),
    MalformedAnnotation(Seq<char>),
}

impl View for DeriveError {
    type V = Fault;

    open spec fn view(&self) -> Fault {
        match self {
            DeriveError::EnumNotImplemented => Fault::EnumNotImplemented,
            DeriveError::UnionNotAllowed => Fault::UnionNotAllowed,
            DeriveError::UnnamedField => Fault::UnnamedField,
            DeriveError::MissingAnnotation(field) => Fault::MissingAnnotation(field@),
            DeriveError::RepeatedAnnotation(field) => Fault::RepeatedAnnotation(field@),
            DeriveError::MalformedAnnotation(field) => Fault::MalformedAnnotation(field@),
        }
    }
}

/// The message that a failed generation is reported with.
pub open spec fn fault_text(fault: Fault) -> Seq<char> {
    match fault {
        Fault::EnumNotImplemented => "enum is currently not implemented"@,
        Fault::UnionNotAllowed => "union is not allowed"@,
        Fault::UnnamedField => "a field without a name is not supported"@,
        Fault::MissingAnnotation(field) => "field `"@ + field + "` has no `zhua` annotation"@,
        Fault::RepeatedAnnotation(field) => "field `"@ + field
            + "` has more than one `zhua` annotation"@,
        Fault::MalformedAnnotation(field) => "the `zhua` annotation of field `"@ + field
            + "` must be a selector literal, a comma and a value function"@,
    }
}

impl DeriveError {
    /// The message that this failure is reported with.
    pub fn message(&self) -> (text: String)
        ensures
            text@ == fault_text(self@),
    {
        match self {
            DeriveError::EnumNotImplemented => String::from_str("enum is currently not implemented"),
            DeriveError::UnionNotAllowed => String::from_str("union is not allowed"),
            DeriveError::UnnamedField => String::from_str("a field without a name is not supported"),
            DeriveError::MissingAnnotation(field) => {
                let mut text = String::from_str("field `");
                text.append(field.as_str());
                text.append("` has no `zhua` annotation");
                text
            },
            DeriveError::RepeatedAnnotation(field) => {
                let mut text = String::from_str("field `");
                text.append(field.as_str());
                text.append("` has more than one `zhua` annotation");
                text
            },
            DeriveError::MalformedAnnotation(field) => {
                let mut text = String::from_str("the `zhua` annotation of field `");
                text.append(field.as_str());
                text.append("` must be a selector literal, a comma and a value function");
                text
            },
        }
    }
}

/// What one annotation says of its field: the selector to apply and the value
/// function to read each match with.
#[derive(Debug, Clone, PartialEq, Eq)]
pub struct Zhua {
    /// The selector literal, as written.
    pub selector: String,
    /// The name of the value function.
    pub value: String,
}

/// The arguments of an annotation are a literal, a comma and an identifier,
/// and nothing else.
pub open spec fn is_annotation_grammar(input: Seq<TokenTree>) -> bool {
    &&& input.len() == 3
    &&& input[0] is Literal
    &&& input[1] == TokenTree::Punct(',')
    &&& input[2] is Ident
}

impl Zhua {
    /// Reads the arguments of an annotation. Succeeds exactly on a literal, a
    /// comma and an identifier, and then holds the literal and the identifier.
    pub fn parse(input: &Vec<TokenTree>) -> (parsed: Option<Zhua>)
        ensures
            parsed is Some <==> is_annotation_grammar(input@),
            parsed is Some ==> parsed->0.selector@ == input@[0]->Literal_0@,
            parsed is Some ==> parsed->0.value@ == input@[2]->Ident_0@,
    {
        if input.len() != 3 {
            return None;
        }
        match (&input[0], &input[1], &input[2]) {
            (TokenTree::Literal(selector), TokenTree::Punct(mark), TokenTree::Ident(value)) => {
                if *mark == ',' {
                    Some(Zhua { selector: selector.clone(), value: value.clone() })
                } else {
                    None
                }
            },
            _ => None,
        }
    }
}

/// The attribute is one of this library's annotations.
pub open spec fn is_annotation(attr: Attribute) -> bool {
    attr.path@ == "zhua"@
}

/// `is_annotation` as a predicate to filter with.
pub open spec fn annotation_filter() -> spec_fn(Attribute) -> bool {
    |attr: Attribute| is_annotation(attr)
}

/// The annotations among `attrs`, in the order written.
pub open spec fn annotations(attrs: Seq<Attribute>) -> Seq<Attribute> {
    attrs.filter(annotation_filter())
}

/// The attribute has arguments in parentheses and they follow the grammar.
pub open spec fn has_rule(attr: Attribute) -> bool {
    attr.arguments is Some && is_annotation_grammar(attr.arguments->0@)
}

/// What is wrong with a field, if anything: it must have a name and exactly
/// one annotation, and that annotation must follow the grammar.
pub open spec fn field_fault(field: Field) -> Option<Fault> {
    if field.ident is None {
        Some(Fault::UnnamedField)
    } else if annotations(field.attrs@).len() == 0 {
        Some(Fault::MissingAnnotation(field.ident->0@))
    } else if annotations(field.attrs@).len() > 1 {
        Some(Fault::RepeatedAnnotation(field.ident->0@))
    } else if !has_rule(annotations(field.attrs@)[0]) {
        Some(Fault::MalformedAnnotation(field.ident->0@))
    } else {
        None
    }
}

/// The statement that extracts one field: it binds the field's name to what
/// the selector and the value function yield in the shape of the field's
/// type, and leaves with the failure, attributed to the field, if there is one.
pub open spec fn let_text(
    name: Seq<char>,
    ty: Seq<char>,
    selector: Seq<char>,
    value: Seq<char>,
) -> Seq<char> {
    "let "@ + name + " = <"@ + ty + " as zhua::FromSelect<_>>::from_selectable(able, "@ + selector
        + ", "@ + value + ").map_err(|err| err.with_field(stringify!("@ + name + ")))?;"@
}

/// The statement that extracts a field without fault.
pub open spec fn field_let(field: Field) -> Seq<char> {
    let arguments = annotations(field.attrs@)[0].arguments->0@;
    let_text(field.ident->0@, field.ty@, arguments[0]->Literal_0@, arguments[2]->Ident_0@)
}

/// Finds the annotations among `attrs`: how many there are, and where the
/// first one stands.
fn find_annotation(attrs: &Vec<Attribute>) -> (found: (usize, usize))
    ensures
        found.0 == annotations(attrs@).len(),
        found.0 > 0 ==> found.1 < attrs@.len() && attrs@[found.1 as int] == annotations(attrs@)[0],
{
    let keyword = String::from_str("zhua");
    let mut count: usize = 0;
    let mut first: usize = 0;
    let mut at: usize = 0;
    while at < attrs.len()
        invariant
            at <= attrs@.len(),
            keyword@ == "zhua"@,
            count <= at,
            count == annotations(attrs@.take(at as int)).len(),
            count > 0 ==> first < at && attrs@[first as int] == annotations(
                attrs@.take(at as int),
            )[0],
        decreases attrs@.len() - at,
    {
        proof {
            assert(attrs@.take(at + 1) == attrs@.take(at as int).push(attrs@[at as int]));
            attrs@.take(at as int).lemma_filter_push(attrs@[at as int], annotation_filter());
        }
        if attrs[at].path == keyword {
            if count == 0 {
                first = at;
            }
            count += 1;
        }
        at += 1;
    }
    proof {
        assert(attrs@.take(at as int) == attrs@);
    }
    (count, first)
}

/// Generates the statement that extracts `field`, or says what is wrong with
/// the field.
pub fn expand_let(field: &Field) -> (statement: Result<String, DeriveError>)
    ensures
        match field_fault(*field) {
            Some(fault) => statement is Err && statement->Err_0@ == fault,
            None => statement is Ok && statement->Ok_0@ == field_let(*field),
        },
{
    let name = match &field.ident {
        Some(name) => name,
        None => {
            return Err(DeriveError::UnnamedField);
        },
    };
    let (count, first) = find_annotation(&field.attrs);
    if count == 0 {
        return Err(DeriveError::MissingAnnotation(name.clone()));
    }
    if count > 1 {
        return Err(DeriveError::RepeatedAnnotation(name.clone()));
    }
    let rule = match &field.attrs[first].arguments {
        Some(arguments) => Zhua::parse(arguments),
        None => None,
    };
    match rule {
        None => Err(DeriveError::MalformedAnnotation(name.clone())),
        Some(rule) => {
            let mut text = String::from_str("let ");
            text.append(name.as_str());
            text.append(" = <");
            text.append(field.ty.as_str());
            text.append(" as zhua::FromSelect<_>>::from_selectable(able, ");
            text.append(rule.selector.as_str());
            text.append(", ");
            text.append(rule.value.as_str());
            text.append(").map_err(|err| err.with_field(stringify!(");
            text.append(name.as_str());
            text.append(")))?;");
            Ok(text)
        },
    }
}

/// No field before the `k`-th has a fault, and the `k`-th has `fault`.
pub open spec fn first_fault_is(fields: Seq<Field>, k: int, fault: Fault) -> bool {
    &&& 0 <= k < fields.len()
    &&& field_fault(fields[k]) == Some(fault)
    &&& forall|i: int| 0 <= i < k ==> field_fault(#[trigger] fields[i]) is None
}

/// No field has a fault.
pub open spec fn faultless(fields: Seq<Field>) -> bool {
    forall|i: int| 0 <= i < fields.len() ==> field_fault(#[trigger] fields[i]) is None
}

/// Generates one extracting statement per field, in declaration order. The
/// first field with a fault, and no later one, decides the failure.
pub fn expand_lets(fields: &Vec<Field>) -> (statements: Result<Vec<String>, DeriveError>)
    ensures
        match statements {
            Ok(lets) => {
                &&& faultless(fields@)
                &&& lets@.len() == fields@.len()
                &&& forall|i: int|
                    0 <= i < fields@.len() ==> (#[trigger] lets@[i])@ == field_let(fields@[i])
            },
            Err(error) => exists|k: int| first_fault_is(fields@, k, error@),
        },
{
    let mut lets: Vec<String> = Vec::new();
    let mut at: usize = 0;
    while at < fields.len()
        invariant
            at <= fields@.len(),
            lets@.len() == at,
            forall|i: int| 0 <= i < at ==> field_fault(#[trigger] fields@[i]) is None,
            forall|i: int| 0 <= i < at ==> (#[trigger] lets@[i])@ == field_let(fields@[i]),
        decreases fields@.len() - at,
    {
        match expand_let(&fields[at]) {
            Ok(statement) => {
                lets.push(statement);
            },
            Err(error) => {
                assert(first_fault_is(fields@, at as int, error@));
                return Err(error);
            },
        }
        at += 1;
    }
    Ok(lets)
}

/// The name of a field as text; nothing for a field without a name.
pub open spec fn name_text(field: Field) -> Seq<char> {
    match field.ident {
        Some(name) => name@,
        None => Seq::empty(),
    }
}

/// The names of the first `count` fields, separated by a comma and a space.
pub open spec fn names_text(fields: Seq<Field>, count: nat) -> Seq<char>
    decreases count,
{
    if count == 0 {
        Seq::empty()
    } else if count == 1 {
        name_text(fields[0])
    } else {
        names_text(fields, (count - 1) as nat) + ", "@ + name_text(fields[count - 1])
    }
}

/// The expression that assembles the instance from the bound field names.
pub open spec fn ok_self_text(fields: Seq<Field>) -> Seq<char> {
    "Ok(Self { "@ + names_text(fields, fields.len()) + " })"@
}

/// Generates the final expression, which lists every field by name, in
/// declaration order, and assembles the instance.
pub fn expand_ok_self(fields: &Vec<Field>) -> (expression: String)
    ensures
        expression@ == ok_self_text(fields@),
{
    let mut names = String::new();
    let mut at: usize = 0;
    while at < fields.len()
        invariant
            at <= fields@.len(),
            names@ == names_text(fields@, at as nat),
        decreases fields@.len() - at,
    {
        if at > 0 {
            names.append(", ");
        }
        match &fields[at].ident {
            Some(name) => {
                names.append(name.as_str());
            },
            None => {},
        }
        at += 1;
    }
    let mut expression = String::from_str("Ok(Self { ");
    expression.append(names.as_str());
    expression.append(" })");
    expression
}

/// The first `count` of `statements`, each followed by a space.
pub open spec fn body_text(statements: Seq<Seq<char>>, count: nat) -> Seq<char>
    decreases count,
{
    if count == 0 {
        Seq::empty()
    } else {
        body_text(statements, (count - 1) as nat) + statements[count - 1] + " "@
    }
}

/// The statements that extract `fields`, in declaration order.
pub open spec fn lets_text(fields: Seq<Field>) -> Seq<Seq<char>> {
    Seq::new(fields.len(), |i: int| field_let(fields[i]))
}

/// The implementation of `Extract` for a struct named `name` with `fields`:
/// one statement per field, then the assembly.
pub open spec fn impl_text(name: Seq<char>, fields: Seq<Field>) -> Seq<char> {
    "impl zhua::Extract for "@ + name
        + " { fn extract_from<'a, T>(able: T) -> Result<Self, zhua::Error> where T: zhua::extract::Context<'a> { "@
        + body_text(lets_text(fields), fields.len()) + ok_self_text(fields) + " } }"@
}

/// Generates the implementation of `Extract` for the annotated type.
///
/// An enum or a union is refused. For a struct, the first field with a fault
/// decides the failure; without one, the result is the implementation's text.
pub fn zhua(input: &DeriveInput) -> (generated: Result<String, DeriveError>)
    ensures
        match input.data {
            Data::Enum => generated is Err && generated->Err_0@ == Fault::EnumNotImplemented,
            Data::Union => generated is Err && generated->Err_0@ == Fault::UnionNotAllowed,
            Data::Struct(fields) => match generated {
                Ok(text) => faultless(fields@) && text@ == impl_text(input.ident@, fields@),
                Err(error) => exists|k: int| first_fault_is(fields@, k, error@),
            },
        },
{
    let fields = match &input.data {
        Data::Struct(fields) => fields,
        Data::Enum => {
            return Err(DeriveError::EnumNotImplemented);
        },
        Data::Union => {
            return Err(DeriveError::UnionNotAllowed);
        },
    };
    let lets = match expand_lets(fields) {
        Ok(lets) => lets,
        Err(error) => {
            return Err(error);
        },
    };
    let ok_self = expand_ok_self(fields);
    let mut text = String::from_str("impl zhua::Extract for ");
    text.append(input.ident.as_str());
    text.append(
        " { fn extract_from<'a, T>(able: T) -> Result<Self, zhua::Error> where T: zhua::extract::Context<'a> { ",
    );
    let ghost head = text@;
    let mut at: usize = 0;
    while at < lets.len()
        invariant
            at <= lets@.len(),
            lets@.len() == fields@.len(),
            forall|i: int|
                0 <= i < fields@.len() ==> (#[trigger] lets@[i])@ == field_let(fields@[i]),
            text@ == head + body_text(lets_text(fields@), at as nat),
        decreases lets@.len() - at,
    {
        text.append(lets[at].as_str());
        text.append(" ");
        proof {
            assert(head + body_text(lets_text(fields@), at as nat) + lets@[at as int]@ + " "@
                == head + (body_text(lets_text(fields@), at as nat) + lets@[at as int]@ + " "@));
        }
        at += 1;
    }
    text.append(ok_self.as_str());
    text.append(" } }");
    Ok(text)
}

} // verus!
