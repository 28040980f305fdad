//! A tokenizer for the lines of an HTML template, and the generator for
//! lines that hold a template variable.

use vstd::prelude::*;
use vstd::hash_map::StringHashMap;
use vstd::string::StringExecFns;

use vstd::utf8::{
    decode_utf8, encode_scalar, encode_utf8, encode_utf8_decode_utf8, encode_utf8_first_scalar,
    encode_utf8_valid_utf8, is_char_boundary, is_char_boundary_iff_not_is_continuation_byte,
    is_char_boundary_start_end_of_seq, pop_first_scalar, valid_utf8_split,
};

verus! {

/// What a line of a template can be.
#[derive(PartialEq, Debug)]
pub enum ContentType {
    Literal(String),
    TemplateVariable(ExpressionData),
    Tag(TagType),
    Unrecognized,
}

/// The tags that a template knows.
#[derive(PartialEq, Debug)]
pub enum TagType {
    ForTag,
    IfTag,
}

/// A line with a template variable, taken apart.
#[derive(PartialEq, Debug)]
pub struct ExpressionData {
    pub head: Option<String>,
    pub variable: String,
    pub tail: Option<String>,
}

/// `symbol` stands somewhere in `input`, character for character.
pub open spec fn occurs_in(symbol: Seq<char>, input: Seq<char>) -> bool {
    exists|from: int|
        0 <= from && from + symbol.len() <= input.len() && #[trigger] input.subrange(
            from,
            from + symbol.len(),
        ) == symbol
}

/// The position of the first `symbol` in `input` from the position `from`
/// on, or the length of `input` if there is none.
pub open spec fn position_from(input: Seq<char>, symbol: char, from: int) -> int
    decreases input.len() - from,
{
    if from >= input.len() {
        input.len() as int
    } else if input[from] == symbol {
        from
    } else {
        position_from(input, symbol, from + 1)
    }
}

/// The number of bytes that the first `count` characters of `input` take.
pub open spec fn byte_offset(input: Seq<char>, count: int) -> int {
    encode_utf8(input.take(count)).len() as int
}

/// Whether `symbol` stands in `input`, and at which byte the first one
/// does: byte 0 where there is none.
pub open spec fn symbol_index(input: Seq<char>, symbol: char) -> (bool, int) {
    let position = position_from(input, symbol, 0);
    if position < input.len() {
        (true, byte_offset(input, position))
    } else {
        (false, 0)
    }
}

/// `str::contains` with a string for the pattern: whether `symbol` stands
/// somewhere in `input`.
#[verifier::external_body]
fn contains(input: &str, symbol: &str) -> (found: bool)
    ensures
        found == occurs_in(symbol@, input@),
{
    input.contains(symbol)
}

/// `char::len_utf8`: the number of bytes that the character takes in UTF-8.
#[verifier::external_body]
fn len_utf8(character: char) -> (length: usize)
    ensures
        length == encode_scalar(character as u32).len(),
{
    character.len_utf8()
}

/// Whether both symbols stand somewhere in the input.
pub fn check_matching_pair(input: &str, symbol1: &str, symbol2: &str) -> (found: bool)
    ensures
        found == (occurs_in(symbol1@, input@) && occurs_in(symbol2@, input@)),
{
    contains(input, symbol1) && contains(input, symbol2)
}

/// Whether the symbol stands somewhere in the input.
pub fn check_symbol_string(input: &str, symbol: &str) -> (found: bool)
    ensures
        found == occurs_in(symbol@, input@),
{
    contains(input, symbol)
}

/// Characters side by side take the bytes of the one and then the bytes of
/// the other.
pub proof fn encoding_of_concatenation(first: Seq<char>, second: Seq<char>)
    ensures
        encode_utf8(first + second) == encode_utf8(first) + encode_utf8(second),
    decreases first.len(),
{
    if first.len() == 0 {
        assert(first + second =~= second);
        assert(encode_utf8(first) + encode_utf8(second) =~= encode_utf8(second));
    } else {
        encoding_of_concatenation(first.drop_first(), second);
        assert((first + second).drop_first() =~= first.drop_first() + second);
        assert(encode_utf8(first + second) =~= encode_utf8(first) + encode_utf8(second));
    }
}

/// One character more takes that character's bytes more, and no prefix
/// takes more bytes than the whole.
pub proof fn byte_offset_step(input: Seq<char>, count: int)
    requires
        0 <= count < input.len(),
    ensures
        byte_offset(input, count + 1) == byte_offset(input, count) + encode_scalar(
            input[count] as u32,
        ).len(),
        byte_offset(input, count + 1) <= encode_utf8(input).len(),
{
    assert(input.take(count + 1) =~= input.take(count) + seq![input[count]]);
    encoding_of_concatenation(input.take(count), seq![input[count]]);
    assert(seq![input[count]].drop_first() =~= Seq::<char>::empty());
    assert(encode_utf8(seq![input[count]]) =~= encode_scalar(input[count] as u32)) by {
        reveal_with_fuel(encode_utf8, 2);
    }
    assert(input =~= input.take(count + 1) + input.skip(count + 1));
    encoding_of_concatenation(input.take(count + 1), input.skip(count + 1));
}

/// A character begins where the characters before it end.
pub proof fn prefix_ends_at_char_boundary(input: Seq<char>, count: int)
    requires
        0 <= count <= input.len(),
    ensures
        is_char_boundary(encode_utf8(input), byte_offset(input, count)),
        0 <= byte_offset(input, count) <= encode_utf8(input).len(),
    decreases count,
{
    encode_utf8_valid_utf8(input);
    assert(input =~= input.take(count) + input.skip(count));
    encoding_of_concatenation(input.take(count), input.skip(count));
    if count == 0 {
        assert(input.take(0) =~= Seq::<char>::empty());
    } else {
        let bytes = encode_utf8(input);
        let rest = input.drop_first();
        encode_utf8_first_scalar(input);
        assert(pop_first_scalar(bytes) =~= encode_utf8(rest));
        prefix_ends_at_char_boundary(rest, count - 1);
        assert(input.take(count) =~= seq![input[0]] + rest.take(count - 1));
        encoding_of_concatenation(seq![input[0]], rest.take(count - 1));
        assert(seq![input[0]].drop_first() =~= Seq::<char>::empty());
        assert(encode_utf8(seq![input[0]]) =~= encode_scalar(input[0] as u32)) by {
            reveal_with_fuel(encode_utf8, 2);
        }
        assert(encode_scalar(input[0] as u32).len() > 0);
    }
}

/// Whether the symbol stands in the input, and at which byte the first one
/// does: byte 0 where there is none.
pub fn get_index_for_symbol(input: &str, symbol: char) -> (found: (bool, usize))
    ensures
        (found.0, found.1 as int) == symbol_index(input@, symbol),
{
    let ghost text = input@;
    let length = input.as_bytes().len();
    let mut index: usize = 0;
    for character in characters: input.chars()
        invariant
            characters.seq() == text,
            text == input@,
            length == encode_utf8(text).len(),
            index == byte_offset(text, characters.index()),
            position_from(text, symbol, 0) == position_from(text, symbol, characters.index()),
    {
        if character == symbol {
            return (true, index);
        }
        proof {
            byte_offset_step(text, characters.index());
        }
        index += len_utf8(character);
    }
    (false, 0)
}

/// The text that the bytes `from` up to, but not including, `to` of `input`
/// hold.
pub open spec fn text_between(input: Seq<char>, from: int, to: int) -> Seq<char> {
    decode_utf8(encode_utf8(input).subrange(from, to))
}

/// Where the variable of a line begins, in bytes: two bytes behind the
/// first `{`.
pub open spec fn variable_start(input: Seq<char>) -> int {
    symbol_index(input, '{').1 + 2
}

/// Where the tail of a line begins, in bytes: two bytes behind the first `}`.
pub open spec fn tail_start(input: Seq<char>) -> int {
    symbol_index(input, '}').1 + 2
}

/// The line can be taken apart: the variable begins before the first `}`,
/// the tail begins within the line, and both begin where a character
/// begins.
pub open spec fn expression_fits(input: Seq<char>) -> bool {
    &&& variable_start(input) <= symbol_index(input, '}').1
    &&& tail_start(input) <= encode_utf8(input).len()
    &&& is_char_boundary(encode_utf8(input), variable_start(input))
    &&& is_char_boundary(encode_utf8(input), tail_start(input))
}

/// `data` is the line `input` taken apart: the head is what stands before
/// the first `{`, the variable what stands between the two bytes from there
/// and the first `}`, and the tail what stands behind the two bytes from
/// there.
pub open spec fn is_expression_of(data: ExpressionData, input: Seq<char>) -> bool {
    &&& data.head matches Some(head) && head@ == text_between(
        input,
        0,
        symbol_index(input, '{').1,
    )
    &&& data.variable@ == text_between(input, variable_start(input), symbol_index(input, '}').1)
    &&& data.tail matches Some(tail) && tail@ == text_between(
        input,
        tail_start(input),
        encode_utf8(input).len() as int,
    )
}

/// The first of a symbol, if there is one, begins where a character begins.
pub proof fn symbol_index_is_char_boundary(input: Seq<char>, symbol: char)
    ensures
        is_char_boundary(encode_utf8(input), symbol_index(input, symbol).1),
        0 <= symbol_index(input, symbol).1 <= encode_utf8(input).len(),
{
    encode_utf8_valid_utf8(input);
    position_in_range(input, symbol, 0);
    let position = position_from(input, symbol, 0);
    if position < input.len() {
        prefix_ends_at_char_boundary(input, position);
    }
}

/// The position of a symbol from `from` on lies between `from` and the end.
pub proof fn position_in_range(input: Seq<char>, symbol: char, from: int)
    requires
        0 <= from <= input.len(),
    ensures
        from <= position_from(input, symbol, from) <= input.len(),
    decreases input.len() - from,
{
    if from < input.len() && input[from] != symbol {
        position_in_range(input, symbol, from + 1);
    }
}

/// Whether the line can be taken apart.
pub fn can_be_taken_apart(input_line: &str) -> (fits: bool)
    ensures
        fits == expression_fits(input_line@),
{
    let length = input_line.as_bytes().len();
    let (_h, i) = get_index_for_symbol(input_line, '{');
    let (_j, k) = get_index_for_symbol(input_line, '}');
    proof {
        symbol_index_is_char_boundary(input_line@, '{');
        symbol_index_is_char_boundary(input_line@, '}');
    }
    k >= 2 && i <= k - 2 && length >= 2 && k <= length - 2 && input_line.is_char_boundary(i + 2)
        && input_line.is_char_boundary(k + 2)
}

/// Takes a line with a template variable apart into what stands before the
/// variable, the variable, and what stands behind it.
pub fn get_expression_data(input_line: &str) -> (data: ExpressionData)
    requires
        expression_fits(input_line@),
    ensures
        is_expression_of(data, input_line@),
{
    let ghost text = input_line@;
    let ghost bytes = encode_utf8(text);
    broadcast use encode_utf8_decode_utf8;

    let (_h, i) = get_index_for_symbol(input_line, '{');
    let (_j, k) = get_index_for_symbol(input_line, '}');
    proof {
        encode_utf8_valid_utf8(text);
        symbol_index_is_char_boundary(text, '{');
        symbol_index_is_char_boundary(text, '}');
        valid_utf8_split(bytes, k as int);
        let front = bytes.subrange(0, k as int);
        if i + 2 == k {
            is_char_boundary_start_end_of_seq(front);
        } else {
            is_char_boundary_iff_not_is_continuation_byte(bytes, i + 2);
            is_char_boundary_iff_not_is_continuation_byte(front, i + 2);
        }
        let back = bytes.subrange(k as int, bytes.len() as int);
        if k + 2 == bytes.len() {
            is_char_boundary_start_end_of_seq(back);
        } else {
            is_char_boundary_iff_not_is_continuation_byte(bytes, k + 2);
            is_char_boundary_iff_not_is_continuation_byte(back, 2);
        }
    }
    let head = String::from_str(input_line.split_at(i).0);
    let front = input_line.split_at(k).0;
    let variable = String::from_str(front.split_at(i + 1 + 1).1);
    let back = input_line.split_at(k).1;
    let tail = String::from_str(back.split_at(1 + 1).1);
    proof {
        assert(bytes.subrange(k as int, bytes.len() as int).subrange(
            2,
            bytes.len() - k,
        ) =~= bytes.subrange(k + 2, bytes.len() as int));
        assert(bytes.subrange(0, k as int).subrange(i + 2, k as int) =~= bytes.subrange(
            i + 2,
            k as int,
        ));
    }
    ExpressionData { head: Some(head), variable: variable, tail: Some(tail) }
}

/// The line holds a tag: both `{%` and `%}` stand in it.
pub open spec fn is_tag_expression(input: Seq<char>) -> bool {
    occurs_in("{%"@, input) && occurs_in("%}"@, input)
}

/// The line speaks of a loop.
pub open spec fn is_for_tag(input: Seq<char>) -> bool {
    (occurs_in("for"@, input) && occurs_in("in"@, input)) || occurs_in("endfor"@, input)
}

/// The line speaks of a condition.
pub open spec fn is_if_tag(input: Seq<char>) -> bool {
    occurs_in("if"@, input) || occurs_in("endif"@, input)
}

/// The line holds a template variable: both `{{` and `}}` stand in it.
pub open spec fn is_template_variable(input: Seq<char>) -> bool {
    occurs_in("{{"@, input) && occurs_in("}}"@, input)
}

/// The line is one that is taken apart for its template variable.
pub open spec fn is_taken_apart(input: Seq<char>) -> bool {
    &&& is_template_variable(input)
    &&& !(is_tag_expression(input) && (is_for_tag(input) || is_if_tag(input)))
}

/// `content` is what the line `input` is.
pub open spec fn is_content_of(content: ContentType, input: Seq<char>) -> bool {
    match content {
        ContentType::Tag(TagType::ForTag) => is_tag_expression(input) && is_for_tag(input),
        ContentType::Tag(TagType::IfTag) => is_tag_expression(input) && !is_for_tag(input)
            && is_if_tag(input),
        ContentType::TemplateVariable(data) => is_taken_apart(input) && is_expression_of(
            data,
            input,
        ),
        ContentType::Literal(text) => !is_tag_expression(input) && !is_template_variable(input)
            && text@ == input,
        ContentType::Unrecognized => is_tag_expression(input) && !is_for_tag(input) && !is_if_tag(
            input,
        ) && !is_template_variable(input),
    }
}

/// Tells what a line of a template is: a loop tag, a condition tag, a line
/// with a template variable, or plain text.
pub fn get_content_type(input_line: &str) -> (content: ContentType)
    requires
        is_taken_apart(input_line@) ==> expression_fits(input_line@),
    ensures
        is_content_of(content, input_line@),
{
    let is_tag_expression = check_matching_pair(input_line, "{%", "%}");
    let is_for_tag = (check_symbol_string(input_line, "for") && check_symbol_string(
        input_line,
        "in",
    )) || check_symbol_string(input_line, "endfor");
    let is_if_tag = check_symbol_string(input_line, "if") || check_symbol_string(
        input_line,
        "endif",
    );
    let is_template_variable = check_matching_pair(input_line, "{{", "}}");
    let content_type;
    if is_tag_expression && is_for_tag {
        content_type = ContentType::Tag(TagType::ForTag);
    } else if is_tag_expression && is_if_tag {
        content_type = ContentType::Tag(TagType::IfTag);
    } else if is_template_variable {
        let content = get_expression_data(input_line);
        content_type = ContentType::TemplateVariable(content);
    } else if !is_tag_expression && !is_template_variable {
        content_type = ContentType::Literal(String::from_str(input_line));
    } else {
        content_type = ContentType::Unrecognized;
    }
    content_type
}

/// The values of the template variables by name.
pub struct Context {
    values: StringHashMap<String>,
}

impl View for Context {
    type V = Map<Seq<char>, Seq<char>>;

    closed spec fn view(&self) -> Map<Seq<char>, Seq<char>> {
        Map::new(
            |name: Seq<char>| self.values@.contains_key(name),
            |name: Seq<char>| self.values@[name]@,
        )
    }
}

impl Context {
    pub fn new() -> (context: Self)
        ensures
            context@ == Map::<Seq<char>, Seq<char>>::empty(),
    {
        let context = Context { values: StringHashMap::new() };
        assert(context@ =~= Map::<Seq<char>, Seq<char>>::empty());
        context
    }

    /// Gives the variable `name` the value `value`.
    pub fn insert(&mut self, name: &str, value: &str)
        ensures
            final(self)@ == old(self)@.insert(name@, value@),
    {
        self.values.insert(String::from_str(name), String::from_str(value));
        assert(self@ =~= old(self)@.insert(name@, value@));
    }

    /// The value of the variable `name`, if it has one.
    pub fn get(&self, name: &str) -> (value: Option<&String>)
        ensures
            match value {
                Some(value) => self@.contains_key(name@) && value@ == self@[name@],
                None => !self@.contains_key(name@),
            },
    {
        self.values.get(name)
    }
}

/// The text of an optional part of a line: nothing where the part is not
/// there.
pub open spec fn text_of(part: Option<String>) -> Seq<char> {
    match part {
        Some(text) => text@,
        None => Seq::empty(),
    }
}

/// The line with the value of its variable in the variable's place. A
/// variable without a value leaves nothing in its place.
pub fn generate_html_template_var(content: ExpressionData, context: Context) -> (html: String)
    ensures
        html@ == text_of(content.head) + (if context@.contains_key(content.variable@) {
            context@[content.variable@]
        } else {
            Seq::empty()
        }) + text_of(content.tail),
{
    let mut html = String::new();
    if let Some(h) = &content.head {
        html.append(h.as_str());
    }
    if let Some(v) = context.get(content.variable.as_str()) {
        html.append(v.as_str());
    }
    if let Some(t) = &content.tail {
        html.append(t.as_str());
    }
    assert(html@ =~= text_of(content.head) + (if context@.contains_key(content.variable@) {
        context@[content.variable@]
    } else {
        Seq::empty()
    }) + text_of(content.tail));
    html
}

} // verus!
