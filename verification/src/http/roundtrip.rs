//! The parser reads back what the wire text of a request says.

use crate::http::error::ErrorKind;
use crate::http::framing::{
    lemma_encode_concat, lemma_encode_nuls, lemma_first_line, lemma_last_line, nuls, single_line,
    zeros,
};
use crate::http::headers::{find, header_text, headers_wire, lemma_find, names_distinct, Field};
use crate::http::request::{
    begins_with_method, header_line, line_kind, line_step, method_named, parse, parse_rest,
    protocol_text, request_line, BuilderView, LineKind, Method, RequestView,
};
use crate::text::{
    first_token, has_separator, is_space, lemma_skip_spaces_to, lemma_skip_word_to,
    lemma_trim_end_run, plain, second_token, trim_end,
};
use vstd::prelude::*;
use vstd::utf8::encode_utf8;

verus! {

/// A header field that a header line can carry: name and value hold no
/// white space, the name does not end with a colon, and it does not begin
/// with the name of a method.
pub open spec fn plain_field(field: Field) -> bool {
    &&& plain(field.0)
    &&& plain(field.1)
    &&& field.0.len() > 0 ==> field.0.last() != ':'
    &&& !begins_with_method(field.0)
}

/// A body that a single line can carry: it holds no line feed and, where
/// it is not empty, does not look like a request line or a header line and
/// does not end with a NUL.
pub open spec fn plain_body(body: Seq<char>) -> bool {
    &&& single_line(body)
    &&& body.len() > 0 ==> {
        &&& !begins_with_method(body)
        &&& !has_separator(body)
        &&& body.last() != '\0'
    }
}

/// A request that its wire text carries whole: the protocol is `HTTP/1.1`,
/// the path is a token, no header name occurs twice, and header fields and
/// body are such that a line can carry them.
pub open spec fn plain_request(request: RequestView) -> bool {
    &&& request.protocol == protocol_text()
    &&& request.path.len() > 0
    &&& plain(request.path)
    &&& names_distinct(request.headers)
    &&& forall|i: int| 0 <= i < request.headers.len() ==> plain_field(#[trigger] request.headers[i])
    &&& plain_body(request.body)
}

/// A word that is the start of `name` followed by `rest`, and that holds
/// nowhere the character with which `rest` begins, is the start of `name`.
proof fn lemma_prefix_within(word: Seq<char>, name: Seq<char>, rest: Seq<char>)
    requires
        rest.len() > 0,
        forall|i: int| 0 <= i < word.len() ==> word[i] != rest[0],
        word.is_prefix_of(name + rest),
    ensures
        word.is_prefix_of(name),
{
    if word.len() > name.len() {
        assert((name + rest).subrange(0, word.len() as int)[name.len() as int] == rest[0]);
    }
}

/// What the names of the methods are made of.
proof fn lemma_method_names()
    ensures
        "GET"@ == seq!['G', 'E', 'T'],
        "POST"@ == seq!['P', 'O', 'S', 'T'],
        "PUT"@ == seq!['P', 'U', 'T'],
        "DELETE"@ == seq!['D', 'E', 'L', 'E', 'T', 'E'],
{
    reveal_strlit("GET");
    reveal_strlit("POST");
    reveal_strlit("PUT");
    reveal_strlit("DELETE");
}

/// The name of a method is a token that spells that method and no other.
proof fn lemma_method_text(method: Method)
    ensures
        method.text().len() > 0,
        plain(method.text()),
        method_named(method.text()) == Some(method),
{
    lemma_method_names();
}

/// A line that `name` begins and that goes on with a colon or a NUL begins
/// with the name of a method only if `name` does.
proof fn lemma_begins_with_method_within(name: Seq<char>, rest: Seq<char>)
    requires
        rest.len() > 0,
        rest[0] == ':' || rest[0] == '\0',
        begins_with_method(name + rest),
    ensures
        begins_with_method(name),
{
    lemma_method_names();
    if "GET"@.is_prefix_of(name + rest) {
        lemma_prefix_within("GET"@, name, rest);
    } else if "POST"@.is_prefix_of(name + rest) {
        lemma_prefix_within("POST"@, name, rest);
    } else if "PUT"@.is_prefix_of(name + rest) {
        lemma_prefix_within("PUT"@, name, rest);
    } else {
        lemma_prefix_within("DELETE"@, name, rest);
    }
}

/// The request line of a method and a path says that method and that path.
proof fn lemma_request_line(method: Method, path: Seq<char>, protocol: Seq<char>)
    requires
        path.len() > 0,
        plain(path),
    ensures
        request_line(method.text() + " "@ + path + " "@ + protocol) == Ok::<
            (Method, Seq<char>),
            ErrorKind,
        >((method, path)),
        (method.text() + " "@ + path + " "@ + protocol).len() > 0,
        single_line(method.text() + " "@ + path + " "@),
{
    reveal_strlit(" ");
    lemma_method_text(method);
    let name = method.text();
    let line = name + " "@ + path + " "@ + protocol;
    let a = name.len() as int;
    let b = a + 1 + path.len();
    assert forall|k: int| 0 <= k < a implies !is_space(#[trigger] line[k]) by {}
    assert forall|k: int| a + 1 <= k < b implies !is_space(#[trigger] line[k]) by {}
    lemma_skip_spaces_to(line, 0, 0);
    lemma_skip_word_to(line, 0, a);
    lemma_skip_spaces_to(line, a, a + 1);
    lemma_skip_word_to(line, a + 1, b);
    assert(first_token(line) == Some(name));
    assert(second_token(line) == Some(path));
    let head = name + " "@ + path + " "@;
    assert forall|i: int| 0 <= i < head.len() implies head[i] != '\n' by {
        if i < a {
            assert(head[i] == name[i]);
        } else if a < i < b {
            assert(head[i] == path[i - a - 1]);
        }
    }
}

/// The header line of a plain field says that field, and is taken for a
/// header line.
proof fn lemma_header_line(field: Field)
    requires
        plain_field(field),
    ensures
        header_line(header_text(field)) == Ok::<Field, ErrorKind>(field),
        line_kind(true, header_text(field)) == LineKind::Header,
        single_line(header_text(field)),
{
    reveal_strlit(": ");
    let (name, value) = field;
    let line = header_text(field);
    let a = name.len() as int;
    assert forall|k: int| 0 <= k < a + 1 implies !is_space(#[trigger] line[k]) by {}
    assert forall|k: int| a + 2 <= k < line.len() implies !is_space(#[trigger] line[k]) by {}
    lemma_skip_spaces_to(line, 0, 0);
    lemma_skip_word_to(line, 0, a + 1);
    lemma_skip_spaces_to(line, a + 1, a + 2);
    lemma_skip_word_to(line, a + 2, line.len() as int);
    let token = line.subrange(0, a + 1);
    assert(token.drop_last() =~= name);
    assert(trim_end(token, ':') == name) by {
        assert(trim_end(token, ':') == trim_end(name, ':'));
    }
    if value.len() > 0 {
        assert(second_token(line) == Some(value));
    } else {
        assert(value =~= Seq::<char>::empty());
    }
    assert(has_separator(line));
    if begins_with_method(line) {
        lemma_begins_with_method_within(name, ": "@ + value);
    }
    assert forall|i: int| 0 <= i < line.len() implies line[i] != '\n' by {
        if i < a {
            assert(line[i] == name[i]);
        } else if a + 2 <= i {
            assert(line[i] == value[i - a - 2]);
        }
    }
}

/// A plain body that is not empty, or is followed by NULs, makes a line
/// that is taken for the body and gives the body back.
proof fn lemma_body_line(builder: BuilderView, body: Seq<char>, padding: nat)
    requires
        plain_body(body),
        builder.path is Some,
        body.len() + padding > 0,
    ensures
        line_step(builder, body + nuls(padding)) == Ok::<(BuilderView, bool), ErrorKind>(
            (BuilderView { body: Some(body), ..builder }, true),
        ),
        single_line(body + nuls(padding)),
{
    let line = body + nuls(padding);
    lemma_trim_end_run(body, '\0', padding);
    if begins_with_method(line) && padding > 0 {
        lemma_begins_with_method_within(body, nuls(padding));
        lemma_method_names();
    }
    if has_separator(line) {
        let i = choose|i: int|
            0 <= i && i + 1 < line.len() && line[i] == ':' && #[trigger] line[i + 1] == ' ';
        assert(i + 1 < body.len());
    }
    assert forall|i: int| 0 <= i < line.len() implies line[i] != '\n' by {
        if i < body.len() {
            assert(line[i] == body[i]);
        }
    }
}

/// The wire text that follows the request line and the header lines of
/// the fields before `todo`: the remaining header lines, the empty line,
/// the body, and NUL padding.
spec fn tail_text(todo: Seq<Field>, body: Seq<char>, padding: nat) -> Seq<char> {
    headers_wire(todo) + "\r\n"@ + (body + nuls(padding))
}

/// The parser that has read the request line and the header lines of `done`.
spec fn builder_after(method: Method, path: Seq<char>, done: Seq<Field>) -> BuilderView {
    BuilderView {
        method: Some(method),
        path: Some(path),
        protocol: Some(protocol_text()),
        headers: done,
        body: None,
    }
}

/// The parser that has read the request line and the header lines of
/// `done` reads the remaining wire text as the whole request.
proof fn lemma_parse_tail(
    method: Method,
    path: Seq<char>,
    done: Seq<Field>,
    todo: Seq<Field>,
    body: Seq<char>,
    padding: nat,
)
    requires
        names_distinct(done + todo),
        forall|i: int| 0 <= i < todo.len() ==> plain_field(#[trigger] todo[i]),
        plain_body(body),
    ensures
        parse_rest(
            encode_utf8(tail_text(todo, body, padding)),
            builder_after(method, path, done),
        ) == Ok::<RequestView, ErrorKind>(
            RequestView { method, path, protocol: protocol_text(), headers: done + todo, body },
        ),
    decreases todo.len(),
{
    let builder = builder_after(method, path, done);
    let input = encode_utf8(tail_text(todo, body, padding));
    if todo.len() == 0 {
        // An empty line, then the body line if there is one.
        let last = body + nuls(padding);
        lemma_first_line(Seq::<char>::empty(), last);
        assert(parse_rest(input, builder) == parse_rest(encode_utf8(last), builder));
        if last.len() == 0 {
            assert(body =~= Seq::<char>::empty());
        } else {
            lemma_body_line(builder, body, padding);
            lemma_last_line(last);
        }
    } else {
        // The header line of the first field, then the rest.
        let field = todo[0];
        let line = header_text(field);
        let rest = tail_text(todo.drop_first(), body, padding);
        assert(tail_text(todo, body, padding) =~= line + "\r\n"@ + rest);
        lemma_header_line(field);
        lemma_first_line(line, rest);
        assert(find(done, field.0) is None) by {
            lemma_find(done, field.0);
            if find(done, field.0) is Some {
                let i = find(done, field.0).unwrap();
                assert((done + todo)[i] == done[i]);
                assert((done + todo)[done.len() as int] == field);
            }
        }
        assert(done.push(field) + todo.drop_first() =~= done + todo);
        assert forall|i: int| 0 <= i < todo.drop_first().len() implies plain_field(
            #[trigger] todo.drop_first()[i],
        ) by {}
        lemma_parse_tail(method, path, done.push(field), todo.drop_first(), body, padding);
    }
}

/// Parsing the wire text of a plain request gives the request back: its
/// method, its path, its header fields and its body. NUL bytes behind the
/// text, as a read buffer of fixed size leaves them, change nothing.
pub proof fn lemma_parse_wire(request: RequestView, padding: nat)
    requires
        plain_request(request),
    ensures
        parse(encode_utf8(request.wire()) + zeros(padding)) == Ok::<RequestView, ErrorKind>(
            request,
        ),
{
    let first = request.method.text() + " "@ + request.path + " "@ + request.protocol;
    let rest = tail_text(request.headers, request.body, padding);
    let text = request.wire() + nuls(padding);
    assert(encode_utf8(text) == encode_utf8(request.wire()) + zeros(padding)) by {
        lemma_encode_concat(request.wire(), nuls(padding));
        lemma_encode_nuls(padding);
    }
    assert(text =~= first + "\r\n"@ + rest);
    lemma_request_line(request.method, request.path, request.protocol);
    assert(single_line(first)) by {
        reveal_strlit("HTTP/1.1");
        let head = request.method.text() + " "@ + request.path + " "@;
        assert forall|i: int| 0 <= i < first.len() implies first[i] != '\n' by {
            if i < head.len() {
                assert(first[i] == head[i]);
            } else {
                assert(first[i] == request.protocol[i - head.len()]);
            }
        }
    }
    lemma_first_line(first, rest);
    lemma_parse_tail(
        request.method,
        request.path,
        Seq::<Field>::empty(),
        request.headers,
        request.body,
        padding,
    );
}

} // verus!
