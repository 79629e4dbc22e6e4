//! The response pattern language: how the URL of an upload is found in the
//! server's answer.

use vstd::prelude::*;
use vstd::string::*;
use crate::error::{outcome_view, parsed_view, Error, Failure, ParseError};
use crate::json::{descend, json_document, Json, JsonValue};
use crate::text::{chars_of, texts};

verus! {

/// The different types of response parsers.
///
/// * `Json` resolves the dotted `path` in the response read as a JSON
///   document and uses the string found there as URL.
/// * `Raw` uses the response body as URL.
#[derive(Debug, PartialEq, Eq)]
pub enum UrlParseType {
    Json { path: String },
    Raw,
}

/// The mathematical value of a [`UrlParseType`].
pub enum ParseMode {
    Json { path: Seq<char> },
    Raw,
}

impl View for UrlParseType {
    type V = ParseMode;

    open spec fn view(&self) -> ParseMode {
        match self {
            UrlParseType::Json { path } => ParseMode::Json { path: path@ },
            UrlParseType::Raw => ParseMode::Raw,
        }
    }
}

/// The characters a JSON path is written with: ASCII letters, digits, `_` and `.`.
pub open spec fn is_path_char(c: char) -> bool {
    ||| 'a' <= c <= 'z'
    ||| 'A' <= c <= 'Z'
    ||| '0' <= c <= '9'
    ||| c == '_'
    ||| c == '.'
}

/// The opening of a JSON pattern, `$json:`.
pub open spec fn json_opening() -> Seq<char> {
    seq!['$', 'j', 's', 'o', 'n', ':']
}

/// Whether `statement` begins with `$json:`.
pub open spec fn has_json_opening(statement: Seq<char>) -> bool {
    statement.len() >= 6 && statement.subrange(0, 6) == json_opening()
}

/// The length of the longest run of path characters in `text` that starts at `from`.
pub open spec fn path_run(text: Seq<char>, from: int) -> int
    decreases text.len() - from,
{
    if 0 <= from < text.len() && is_path_char(text[from]) {
        1 + path_run(text, from + 1)
    } else {
        0
    }
}

/// What a parser statement means: `$json:`, then one or more path characters,
/// then `$`, at the very start of the statement, selects the JSON mode with
/// those characters as path; whatever follows the closing `$` is not looked
/// at. Every other statement selects the raw mode.
pub open spec fn statement_mode(statement: Seq<char>) -> ParseMode {
    let end = 6 + path_run(statement, 6);
    if has_json_opening(statement) && end > 6 && end < statement.len() && statement[end] == '$' {
        ParseMode::Json { path: statement.subrange(6, end) }
    } else {
        ParseMode::Raw
    }
}

/// A text of one or more path characters.
pub open spec fn is_path(path: Seq<char>) -> bool {
    path.len() >= 1 && forall|i: int| 0 <= i < path.len() ==> is_path_char(#[trigger] path[i])
}

/// The statement that is written `$json:`, `path`, `$`, `rest`.
pub open spec fn json_statement(path: Seq<char>, rest: Seq<char>) -> Seq<char> {
    json_opening() + path + seq!['$'] + rest
}

fn is_path_character(c: char) -> (yes: bool)
    ensures
        yes == is_path_char(c),
{
    ('a' <= c && c <= 'z') || ('A' <= c && c <= 'Z') || ('0' <= c && c <= '9') || c == '_' || c
        == '.'
}

fn begins_with_json_opening(chars: &Vec<char>) -> (yes: bool)
    ensures
        yes == has_json_opening(chars@),
{
    if chars.len() < 6 {
        return false;
    }
    let yes = chars[0] == '$' && chars[1] == 'j' && chars[2] == 's' && chars[3] == 'o' && chars[4]
        == 'n' && chars[5] == ':';
    proof {
        let opening = chars@.subrange(0, 6);
        if yes {
            assert(opening =~= json_opening());
        } else {
            assert(opening[0] == chars[0] && opening[1] == chars[1] && opening[2] == chars[2]
                && opening[3] == chars[3] && opening[4] == chars[4] && opening[5] == chars[5]);
        }
    }
    yes
}

/// Converts the configured url parser statement into a parser type.
pub fn convert_statement(statement: &String) -> (mode: UrlParseType)
    ensures
        mode@ == statement_mode(statement@),
{
    let text = statement.as_str();
    let chars = chars_of(text);
    if !begins_with_json_opening(&chars) {
        return UrlParseType::Raw;
    }
    let mut end: usize = 6;
    while end < chars.len() && is_path_character(chars[end])
        invariant
            6 <= end <= chars.len(),
            path_run(chars@, 6) == (end - 6) + path_run(chars@, end as int),
        decreases chars.len() - end,
    {
        end = end + 1;
    }
    if end == 6 || end >= chars.len() || chars[end] != '$' {
        return UrlParseType::Raw;
    }
    UrlParseType::Json { path: String::from_str(text.substring_char(6, end)) }
}

/// The run of path characters that starts at `from` ends at `end`, where
/// everything from `from` up to `end` is a path character and what stands at
/// `end`, if anything, is none.
pub proof fn lemma_path_run_ends(text: Seq<char>, from: int, end: int)
    requires
        0 <= from <= end <= text.len(),
        forall|i: int| from <= i < end ==> is_path_char(#[trigger] text[i]),
        end < text.len() ==> !is_path_char(text[end]),
    ensures
        path_run(text, from) == end - from,
    decreases end - from,
{
    if from < end {
        lemma_path_run_ends(text, from + 1, end);
    }
}

/// The run of path characters that starts at `from` holds path characters
/// only, stays inside the text, and is not followed by a path character.
pub proof fn lemma_path_run_is_longest(text: Seq<char>, from: int)
    requires
        0 <= from <= text.len(),
    ensures
        0 <= path_run(text, from) <= text.len() - from,
        forall|i: int|
            from <= i < from + path_run(text, from) ==> is_path_char(#[trigger] text[i]),
        from + path_run(text, from) < text.len() ==> !is_path_char(
            text[from + path_run(text, from)],
        ),
    decreases text.len() - from,
{
    if from < text.len() && is_path_char(text[from]) {
        lemma_path_run_is_longest(text, from + 1);
    }
}

/// A statement that is written `$json:`, a path, `$` and anything after it
/// selects the JSON mode with that path.
pub proof fn lemma_json_statement_selects_json(path: Seq<char>, rest: Seq<char>)
    requires
        is_path(path),
    ensures
        statement_mode(json_statement(path, rest)) == (ParseMode::Json { path }),
{
    let statement = json_statement(path, rest);
    let end: int = 6 + path.len() as int;
    assert(statement.subrange(0, 6) =~= json_opening());
    assert forall|i: int| 6 <= i < end implies is_path_char(#[trigger] statement[i]) by {
        assert(statement[i] == path[i - 6]);
    }
    assert(statement[end] == '$');
    lemma_path_run_ends(statement, 6, end);
    assert(statement.subrange(6, end) =~= path);
}

/// Every statement selects exactly one mode, and it selects the JSON mode
/// only where it is written `$json:`, a path, `$` and anything after it; the
/// path it selects is that path.
pub proof fn lemma_statement_mode_is_total(statement: Seq<char>)
    ensures
        statement_mode(statement) is Raw || statement_mode(statement) is Json,
        statement_mode(statement) matches ParseMode::Json { path } ==> is_path(path) && statement
            == json_statement(path, statement.skip(7 + path.len() as int)),
{
    if let ParseMode::Json { path } = statement_mode(statement) {
        lemma_path_run_is_longest(statement, 6);
        assert(is_path(path)) by {
            assert forall|i: int| 0 <= i < path.len() implies is_path_char(#[trigger] path[i]) by {
                assert(path[i] == statement[6 + i]);
            }
        }
        assert(statement =~= json_statement(path, statement.skip(7 + path.len() as int)));
    }
}

/// The segments of a dotted path: the stretches between its dots, in order.
/// A path with n dots has n + 1 segments, some of which may be empty; the
/// empty path has one empty segment.
pub open spec fn path_segments(path: Seq<char>) -> Seq<Seq<char>>
    decreases path.len(),
{
    if path.len() == 0 {
        seq![Seq::empty()]
    } else {
        let before = path_segments(path.drop_last());
        if path.last() == '.' {
            before.push(Seq::empty())
        } else {
            before.drop_last().push(before.last().push(path.last()))
        }
    }
}

/// The texts of `segments` written one after the other with a dot between
/// each two.
pub open spec fn dotted(segments: Seq<Seq<char>>) -> Seq<char>
    decreases segments.len(),
{
    if segments.len() == 0 {
        Seq::empty()
    } else if segments.len() == 1 {
        segments[0]
    } else {
        dotted(segments.drop_last()) + seq!['.'] + segments.last()
    }
}

/// The segments of a path are at least one, none of them holds a dot, and
/// written with dots between them they give the path again.
pub proof fn lemma_path_segments(path: Seq<char>)
    ensures
        path_segments(path).len() >= 1,
        forall|i: int, j: int|
            0 <= i < path_segments(path).len() && 0 <= j < path_segments(path)[i].len()
                ==> #[trigger] path_segments(path)[i][j] != '.',
        dotted(path_segments(path)) == path,
    decreases path.len(),
{
    if path.len() == 0 {
        assert(dotted(path_segments(path)) =~= path);
    } else {
        let shorter = path.drop_last();
        let before = path_segments(shorter);
        let now = path_segments(path);
        lemma_path_segments(shorter);
        if path.last() == '.' {
            assert(now.drop_last() =~= before);
            assert(dotted(now) =~= shorter + seq!['.']);
            assert(shorter + seq!['.'] =~= path);
        } else {
            let grown = before.last().push(path.last());
            assert(now.last() == grown);
            assert(now.drop_last() =~= before.drop_last());
            assert(path =~= shorter.push(path.last()));
            if before.len() == 1 {
                assert(before[0] == dotted(before));
                assert(now.len() == 1);
                assert(dotted(now) == grown);
            } else {
                assert(dotted(before) == dotted(before.drop_last()) + seq!['.'] + before.last());
                assert(dotted(now) == dotted(now.drop_last()) + seq!['.'] + now.last());
                assert(dotted(now) =~= (dotted(before.drop_last()) + seq!['.']
                    + before.last()).push(path.last()));
            }
            assert forall|i: int, j: int|
                0 <= i < now.len() && 0 <= j < now[i].len() implies #[trigger] now[i][j]
                != '.' by {
                if i < now.len() - 1 {
                    assert(now[i] == before[i]);
                } else if j < before.last().len() {
                    assert(now[i][j] == before.last()[j]);
                }
            }
        }
    }
}

/// Splits a dotted path into its segments.
pub fn split_path(path: &str) -> (segments: Vec<String>)
    ensures
        texts(segments@) == path_segments(path@),
{
    let chars = chars_of(path);
    let mut segments: Vec<String> = Vec::new();
    let mut start: usize = 0;
    let mut at: usize = 0;
    assert(path@.take(0) =~= Seq::<char>::empty());
    assert(texts(segments@).push(path@.subrange(0, 0)) =~= seq![Seq::<char>::empty()]);
    while at < chars.len()
        invariant
            start <= at <= chars.len(),
            chars@ == path@,
            path_segments(path@.take(at as int)) == texts(segments@).push(
                path@.subrange(start as int, at as int),
            ),
        decreases chars.len() - at,
    {
        let ghost before = path_segments(path@.take(at as int));
        let ghost done = texts(segments@);
        assert(path@.take(at + 1).drop_last() =~= path@.take(at as int));
        assert(path@.take(at + 1).last() == chars[at as int]);
        if chars[at] == '.' {
            let segment = String::from_str(path.substring_char(start, at));
            segments.push(segment);
            start = at + 1;
            assert(texts(segments@) =~= done.push(segment@));
            assert(path@.subrange(start as int, at + 1) =~= Seq::<char>::empty());
        } else {
            assert(before.drop_last() =~= done);
            assert(before.last().push(chars[at as int]) =~= path@.subrange(
                start as int,
                at + 1,
            ));
        }
        at = at + 1;
    }
    assert(path@.take(at as int) =~= path@);
    let ghost done = texts(segments@);
    let segment = String::from_str(path.substring_char(start, at));
    segments.push(segment);
    assert(texts(segments@) =~= done.push(segment@));
    segments
}

/// What is read at `path` in `document`: each segment of the path is looked
/// up as a member of the object reached so far, and the value reached at the
/// end has to be a string.
pub open spec fn extracted_from(document: Json, path: Seq<char>) -> Result<Seq<char>, ParseError> {
    match descend(document, path_segments(path)) {
        None => Err(ParseError::PathNotFound),
        Some(Json::String(text)) => Ok(text),
        Some(_) => Err(ParseError::NotAString),
    }
}

/// What `mode` reads from a response `body`: in raw mode the body itself, in
/// JSON mode what stands at the path in the body read as a JSON document.
pub open spec fn extracted(mode: ParseMode, body: Seq<char>) -> Result<Seq<char>, ParseError> {
    match mode {
        ParseMode::Raw => Ok(body),
        ParseMode::Json { path } => match json_document(body) {
            None => Err(ParseError::MalformedJson),
            Some(document) => extracted_from(document, path),
        },
    }
}

/// What the parser statement `statement` reads from a response `body`.
pub open spec fn parsed_url(body: Seq<char>, statement: Seq<char>) -> Result<Seq<char>, Failure> {
    match extracted(statement_mode(statement), body) {
        Ok(url) => Ok(url),
        Err(reason) => Err(Failure::ResponseParseFailed { reason, pattern: statement }),
    }
}

/// Reads the string that stands at the dotted `path` in `document`.
pub fn extract_from_document(document: &JsonValue, path: &str) -> (url: Result<String, ParseError>)
    ensures
        parsed_view(url) == extracted_from(document@, path@),
{
    let segments = split_path(path);
    match document.descend(&segments) {
        None => Err(ParseError::PathNotFound),
        Some(found) => match found.as_str() {
            Some(text) => Ok(String::from_str(text)),
            None => Err(ParseError::NotAString),
        },
    }
}

/// Reads the URL from a response `body` the way `mode` says.
pub fn extract(mode: &UrlParseType, body: &str) -> (url: Result<String, ParseError>)
    ensures
        parsed_view(url) == extracted(mode@, body@),
{
    match mode {
        UrlParseType::Raw => Ok(String::from_str(body)),
        UrlParseType::Json { path } => match JsonValue::parse(body) {
            None => Err(ParseError::MalformedJson),
            Some(document) => extract_from_document(&document, path.as_str()),
        },
    }
}

/// Parses the given response using the given parser string.
///
/// Returns the image url resulting from parsing.
pub fn parse_url(response: &String, parser_stmt: &String) -> (url: Result<String, Error>)
    ensures
        outcome_view(url) == parsed_url(response@, parser_stmt@),
{
    let parser = convert_statement(parser_stmt);
    match extract(&parser, response.as_str()) {
        Ok(url) => Ok(url),
        Err(reason) => Err(Error::ResponseParseFailed { reason, pattern: parser_stmt.clone() }),
    }
}

/// In raw mode the URL is the body, whatever the body is.
pub proof fn lemma_raw_extracts_body(body: Seq<char>)
    ensures
        extracted(ParseMode::Raw, body) == Ok::<Seq<char>, ParseError>(body),
{
}

/// A statement that selects the raw mode makes every response its own URL.
pub proof fn lemma_raw_statement_parses_body(body: Seq<char>, statement: Seq<char>)
    requires
        statement_mode(statement) is Raw,
    ensures
        parsed_url(body, statement) == Ok::<Seq<char>, Failure>(body),
{
}

} // verus!
