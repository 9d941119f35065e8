//! Schema management for SpiceDB.

use vstd::prelude::*;

use crate::spicedb::messages::{ReadSchemaRequest, WriteSchemaRequest};
use crate::types::{outcome, AuthError, AuthErrorView};

verus! {

/// How a difference between the schemas is handled.
#[derive(Debug, Clone, Copy, PartialEq, Eq)]
pub enum SchemaMode {
    /// The schemas have to match; a difference is an error.
    VerifyOnly,
    /// A difference is removed by writing the desired schema.
    ApplyIfDifferent,
}

/// What remains to be done for a schema.
#[derive(Debug)]
pub enum SchemaAction {
    /// Nothing: the schemas match.
    UpToDate,
    /// The request is to be sent.
    Write(WriteSchemaRequest),
}

/// `String::push`: the character is appended.
pub assume_specification[ String::push ](s: &mut String, c: char)
    ensures
        final(s)@ == old(s)@.push(c),
;

/// The characters with the Unicode property `White_Space`.
pub open spec fn is_white_space(c: char) -> bool {
    ||| '\u{9}' <= c <= '\u{d}'
    ||| c == ' '
    ||| c == '\u{85}'
    ||| c == '\u{a0}'
    ||| c == '\u{1680}'
    ||| '\u{2000}' <= c <= '\u{200a}'
    ||| c == '\u{2028}'
    ||| c == '\u{2029}'
    ||| c == '\u{202f}'
    ||| c == '\u{205f}'
    ||| c == '\u{3000}'
}

/// The pieces of a text between its newlines.
pub open spec fn split_lines(s: Seq<char>) -> Seq<Seq<char>>
    decreases s.len(),
{
    if s.len() == 0 {
        seq![Seq::empty()]
    } else {
        let pieces = split_lines(s.drop_last());
        if s.last() == '\n' {
            pieces.push(Seq::empty())
        } else {
            pieces.drop_last().push(pieces.last().push(s.last()))
        }
    }
}

/// A line without its trailing white space.
pub open spec fn trim_end(line: Seq<char>) -> Seq<char>
    decreases line.len(),
{
    if line.len() > 0 && is_white_space(line.last()) {
        trim_end(line.drop_last())
    } else {
        line
    }
}

/// The lines without their trailing white space, and of those the ones that are not empty.
pub open spec fn kept(pieces: Seq<Seq<char>>) -> Seq<Seq<char>> {
    pieces.map_values(|line: Seq<char>| trim_end(line)).filter(|line: Seq<char>| line.len() > 0)
}

/// Lines joined by newlines.
pub open spec fn join_lines(lines: Seq<Seq<char>>) -> Seq<char>
    decreases lines.len(),
{
    if lines.len() == 0 {
        Seq::empty()
    } else if lines.len() == 1 {
        lines[0]
    } else {
        join_lines(lines.drop_last()).push('\n') + lines.last()
    }
}

/// The normal form of a schema: its lines without trailing white space and
/// without empty lines, joined by newlines.
pub open spec fn normal_form(s: Seq<char>) -> Seq<char> {
    join_lines(kept(split_lines(s)))
}

/// Whether `c` is white space.
fn white_space(c: char) -> (r: bool)
    ensures
        r == is_white_space(c),
{
    ('\u{9}' <= c && c <= '\u{d}') || c == ' ' || c == '\u{85}' || c == '\u{a0}' || c == '\u{1680}'
        || ('\u{2000}' <= c && c <= '\u{200a}') || c == '\u{2028}' || c == '\u{2029}' || c
        == '\u{202f}' || c == '\u{205f}' || c == '\u{3000}'
}

/// Adding a line to the pieces adds it, trimmed, to the kept lines, unless it is blank.
proof fn lemma_kept_push(pieces: Seq<Seq<char>>, line: Seq<char>)
    ensures
        kept(pieces.push(line)) == if trim_end(line).len() > 0 {
            kept(pieces).push(trim_end(line))
        } else {
            kept(pieces)
        },
{
    let trim = |l: Seq<char>| trim_end(l);
    let nonempty = |l: Seq<char>| l.len() > 0;
    let trimmed = pieces.map_values(trim);
    assert(pieces.push(line).map_values(trim) =~= trimmed.push(trim_end(line)));
    reveal(Seq::filter);
    assert(trimmed.push(trim_end(line)).drop_last() =~= trimmed);
}

/// A text of no pieces keeps no line.
proof fn lemma_kept_empty()
    ensures
        kept(Seq::empty()) == Seq::<Seq<char>>::empty(),
{
    let trimmed = Seq::<Seq<char>>::empty().map_values(|l: Seq<char>| trim_end(l));
    assert(trimmed =~= Seq::empty());
    reveal(Seq::filter);
}

/// Every kept line is the trimmed form of a piece, and is not empty.
proof fn lemma_kept_elements(pieces: Seq<Seq<char>>, i: int)
    requires
        0 <= i < kept(pieces).len(),
    ensures
        kept(pieces)[i].len() > 0,
        exists|j: int|
            0 <= j < pieces.len() && #[trigger] trim_end(pieces[j]) == kept(pieces)[i],
    decreases pieces.len(),
{
    if pieces.len() == 0 {
        assert(pieces =~= Seq::empty());
        lemma_kept_empty();
    } else {
        let front = pieces.drop_last();
        assert(pieces =~= front.push(pieces.last()));
        lemma_kept_push(front, pieces.last());
        if i < kept(front).len() {
            lemma_kept_elements(front, i);
            let j = choose|j: int|
                0 <= j < front.len() && #[trigger] trim_end(front[j]) == kept(front)[i];
            assert(trim_end(pieces[j]) == kept(pieces)[i]);
        } else {
            assert(trim_end(pieces[pieces.len() - 1]) == kept(pieces)[i]);
        }
    }
}

/// A join of kept lines is empty only where no line was kept.
proof fn lemma_join_empty(lines: Seq<Seq<char>>)
    requires
        forall|i: int| 0 <= i < lines.len() ==> #[trigger] lines[i].len() > 0,
    ensures
        join_lines(lines).len() == 0 <==> lines.len() == 0,
{
}

/// Splitting gives at least one piece.
proof fn lemma_split_nonempty(s: Seq<char>)
    ensures
        split_lines(s).len() > 0,
    decreases s.len(),
{
    if s.len() > 0 {
        lemma_split_nonempty(s.drop_last());
    }
}

/// Ends a line: appends it to `out` in normal form and clears it.
fn end_line(out: &mut String, line: &mut Vec<char>, Ghost(pieces): Ghost<Seq<Seq<char>>>)
    requires
        old(out)@ == join_lines(kept(pieces)),
    ensures
        final(out)@ == join_lines(kept(pieces.push(old(line)@))),
        final(line)@ == Seq::<char>::empty(),
{
    let ghost whole = line@;
    while line.len() > 0 && white_space(line[line.len() - 1])
        invariant
            trim_end(line@) == trim_end(whole),
        decreases line@.len(),
    {
        line.pop();
    }
    proof {
        assert(line@ == trim_end(whole));
        lemma_kept_push(pieces, whole);
    }
    if line.len() > 0 {
        let ghost before = out@;
        let ghost lines = kept(pieces);
        proof {
            assert forall|i: int| 0 <= i < lines.len() implies #[trigger] lines[i].len() > 0 by {
                lemma_kept_elements(pieces, i);
            }
            lemma_join_empty(lines);
            assert(lines.push(line@).drop_last() =~= lines);
        }
        if !out.as_str().is_empty() {
            out.push('\n');
        }
        let ghost start = out@;
        let n: usize = line.len();
        for i in 0..n
            invariant
                n == line@.len(),
                out@ == start + line@.take(i as int),
        {
            out.push(line[i]);
            assert(line@.take(i + 1) =~= line@.take(i as int).push(line@[i as int]));
        }
        assert(line@.take(n as int) =~= line@);
        assert(out@ =~= join_lines(lines.push(line@)));
    }
    line.clear();
}

/// Normalizes a schema by removing trailing white space and empty lines.
pub fn normalize_schema(s: &str) -> (normal: String)
    ensures
        normal@ == normal_form(s@),
{
    let mut out = String::new();
    let mut line: Vec<char> = Vec::new();
    let ghost mut pieces: Seq<Seq<char>> = Seq::empty();
    proof {
        lemma_kept_empty();
        assert(s@.take(0) =~= Seq::empty());
        assert(split_lines(s@.take(0)) =~= pieces.push(line@));
    }
    for c in it: s.chars()
        invariant
            it.seq() == s@,
            out@ == join_lines(kept(pieces)),
            split_lines(s@.take(it.index() as int)) == pieces.push(line@),
    {
        proof {
            let i = it.index() as int;
            assert(s@.take(i + 1).drop_last() =~= s@.take(i));
            assert(pieces.push(line@).drop_last() =~= pieces);
        }
        if c == '\n' {
            let ghost ended = line@;
            end_line(&mut out, &mut line, Ghost(pieces));
            proof {
                pieces = pieces.push(ended);
            }
        } else {
            line.push(c);
        }
    }
    assert(s@.take(s@.len() as int) =~= s@);
    end_line(&mut out, &mut line, Ghost(pieces));
    out
}

/// The text of the schema that SpiceDB has: none, if it could not be read.
pub open spec fn existing_text(read: Result<String, AuthError>) -> Seq<char> {
    match read {
        Ok(text) => text@,
        Err(_) => Seq::empty(),
    }
}

/// Whether two schemas have the same normal form.
pub open spec fn schemas_match(a: Seq<char>, b: Seq<char>) -> bool {
    normal_form(a) == normal_form(b)
}

/// The operations on the schema: the request that each sends, and what the
/// reply to it means.
pub struct SchemaManager {}

impl SchemaManager {
    /// Decides what a schema needs, given what reading the remote schema gave.
    ///
    /// A schema that cannot be read counts as empty. Schemas are compared by their
    /// normal form.
    ///
    /// # Errors
    ///
    /// A difference, with [`SchemaMode::VerifyOnly`].
    pub fn ensure_schema(
        read: Result<String, AuthError>,
        desired_schema: &str,
        mode: SchemaMode,
    ) -> (action: Result<SchemaAction, AuthError>)
        ensures
            action matches Ok(SchemaAction::UpToDate) <==> schemas_match(
                existing_text(read),
                desired_schema@,
            ),
            action is Err <==> !schemas_match(existing_text(read), desired_schema@) && mode
                == SchemaMode::VerifyOnly,
            action matches Err(e) ==> e@ == (AuthErrorView::SpiceDbProtocol {
                operation: "ensure_schema"@,
                message: "spicedb schema mismatch (VerifyOnly)"@,
            }),
            action matches Ok(SchemaAction::Write(request)) ==> request.schema@ == desired_schema@,
    {
        let existing = match read {
            Ok(text) => text,
            Err(_) => String::new(),
        };
        if normalize_schema(existing.as_str()) == normalize_schema(desired_schema) {
            return Ok(SchemaAction::UpToDate);
        }
        match mode {
            SchemaMode::VerifyOnly => Err(
                AuthError::spicedb_protocol(
                    "ensure_schema",
                    "spicedb schema mismatch (VerifyOnly)".to_owned(),
                ),
            ),
            SchemaMode::ApplyIfDifferent => Ok(SchemaAction::Write(SchemaManager::write_schema(desired_schema))),
        }
    }

    /// The request for the active schema.
    pub fn read_schema() -> ReadSchemaRequest {
        ReadSchemaRequest {  }
    }

    /// What the reply to a [`ReadSchemaRequest`] means: the schema text, or the
    /// error with the gRPC status.
    pub fn read_schema_reply(reply: Result<String, String>) -> (r: Result<String, AuthError>)
        ensures
            match reply {
                Ok(text) => r == Ok::<String, AuthError>(text),
                Err(status) => outcome(r) == Err::<String, AuthErrorView>(
                    AuthErrorView::SpiceDbStatus { operation: "read_schema"@, status: status@ },
                ),
            },
    {
        match reply {
            Ok(text) => Ok(text),
            Err(status) => Err(AuthError::spicedb_status("read_schema", status)),
        }
    }

    /// The request to overwrite the schema with the text.
    pub fn write_schema(schema_text: &str) -> (request: WriteSchemaRequest)
        ensures
            request.schema@ == schema_text@,
    {
        WriteSchemaRequest { schema: schema_text.to_owned() }
    }

    /// What the reply to a [`WriteSchemaRequest`] means.
    pub fn write_schema_reply(reply: Result<(), String>) -> (r: Result<(), AuthError>)
        ensures
            match reply {
                Ok(_) => r is Ok,
                Err(status) => outcome(r) == Err::<(), AuthErrorView>(
                    AuthErrorView::SpiceDbStatus { operation: "write_schema"@, status: status@ },
                ),
            },
    {
        match reply {
            Ok(_) => Ok(()),
            Err(status) => Err(AuthError::spicedb_status("write_schema", status)),
        }
    }
}

/// No piece of a text holds a newline.
proof fn lemma_split_pieces(s: Seq<char>, i: int)
    requires
        0 <= i < split_lines(s).len(),
    ensures
        !split_lines(s)[i].contains('\n'),
    decreases s.len(),
{
    if s.len() > 0 {
        let pieces = split_lines(s.drop_last());
        lemma_split_nonempty(s.drop_last());
        if i < pieces.len() {
            lemma_split_pieces(s.drop_last(), i);
        }
    }
}

/// Text without a newline extends the last piece.
proof fn lemma_split_append(s: Seq<char>, line: Seq<char>)
    requires
        !line.contains('\n'),
    ensures
        split_lines(s + line) == split_lines(s).drop_last().push(split_lines(s).last() + line),
    decreases line.len(),
{
    let pieces = split_lines(s);
    lemma_split_nonempty(s);
    if line.len() == 0 {
        assert(s + line =~= s);
        assert(pieces.last() + line =~= pieces.last());
        assert(pieces.drop_last().push(pieces.last()) =~= pieces);
    } else {
        let front = line.drop_last();
        assert(!front.contains('\n')) by {
            if front.contains('\n') {
                let k = choose|k: int| 0 <= k < front.len() && front[k] == '\n';
                assert(line[k] == '\n');
            }
        }
        lemma_split_append(s, front);
        assert((s + line).drop_last() =~= s + front);
        assert(line[line.len() - 1] != '\n');
        let extended = split_lines(s + front);
        assert(extended.drop_last() =~= pieces.drop_last());
        assert(pieces.last() + line =~= (pieces.last() + front).push(line.last()));
    }
}

/// Splitting undoes joining.
proof fn lemma_split_join(lines: Seq<Seq<char>>)
    requires
        lines.len() > 0,
        forall|i: int| 0 <= i < lines.len() ==> !(#[trigger] lines[i]).contains('\n'),
    ensures
        split_lines(join_lines(lines)) == lines,
    decreases lines.len(),
{
    let empty = Seq::<char>::empty();
    if lines.len() == 1 {
        lemma_split_append(empty, lines[0]);
        assert(empty + lines[0] =~= lines[0]);
        assert(split_lines(join_lines(lines)) =~= lines);
    } else {
        let front = lines.drop_last();
        lemma_split_join(front);
        let joined = join_lines(front).push('\n');
        assert(joined.drop_last() =~= join_lines(front));
        assert(!lines[lines.len() - 1].contains('\n'));
        lemma_split_append(joined, lines.last());
        assert(empty + lines.last() =~= lines.last());
        assert(front.push(empty).drop_last() =~= front);
        assert(front.push(lines.last()) =~= lines);
    }
}

/// A trimmed line starts the line, and has nothing left to trim.
proof fn lemma_trim_end(line: Seq<char>)
    ensures
        trim_end(line).len() <= line.len(),
        trim_end(line) == line.take(trim_end(line).len() as int),
        trim_end(trim_end(line)) == trim_end(line),
        trim_end(line).len() > 0 ==> !is_white_space(trim_end(line).last()),
    decreases line.len(),
{
    if line.len() > 0 && is_white_space(line.last()) {
        lemma_trim_end(line.drop_last());
        let n = trim_end(line).len() as int;
        assert(line.drop_last().take(n) =~= line.take(n));
    } else {
        assert(line.take(line.len() as int) =~= line);
    }
}

/// What the kept lines of a text are like: not empty, trimmed, without a newline.
proof fn lemma_kept_lines(s: Seq<char>, i: int)
    requires
        0 <= i < kept(split_lines(s)).len(),
    ensures
        kept(split_lines(s))[i].len() > 0,
        trim_end(kept(split_lines(s))[i]) == kept(split_lines(s))[i],
        !is_white_space(kept(split_lines(s))[i].last()),
        !kept(split_lines(s))[i].contains('\n'),
{
    let pieces = split_lines(s);
    let line = kept(pieces)[i];
    lemma_kept_elements(pieces, i);
    let j = choose|j: int| 0 <= j < pieces.len() && #[trigger] trim_end(pieces[j]) == line;
    lemma_trim_end(pieces[j]);
    lemma_split_pieces(s, j);
    if line.contains('\n') {
        let k = choose|k: int| 0 <= k < line.len() && line[k] == '\n';
        assert(pieces[j][k] == '\n');
        assert(pieces[j].contains('\n'));
    }
}

/// Lines that are not empty and have nothing to trim are all kept.
proof fn lemma_kept_all(lines: Seq<Seq<char>>)
    requires
        forall|i: int|
            0 <= i < lines.len() ==> (#[trigger] lines[i]).len() > 0 && trim_end(lines[i])
                == lines[i],
    ensures
        kept(lines) == lines,
    decreases lines.len(),
{
    if lines.len() == 0 {
        lemma_kept_empty();
        assert(lines =~= Seq::empty());
    } else {
        let front = lines.drop_last();
        lemma_kept_all(front);
        assert(front.push(lines[lines.len() - 1]) =~= lines);
        lemma_kept_push(front, lines.last());
    }
}

/// The lines of a normal form are the kept lines of the text.
proof fn lemma_normal_form_lines(s: Seq<char>)
    ensures
        kept(split_lines(normal_form(s))) == kept(split_lines(s)),
        kept(split_lines(s)).len() > 0 ==> split_lines(normal_form(s)) == kept(split_lines(s)),
{
    let lines = kept(split_lines(s));
    assert forall|i: int| 0 <= i < lines.len() implies (#[trigger] lines[i]).len() > 0 && trim_end(
        lines[i],
    ) == lines[i] && !lines[i].contains('\n') by {
        lemma_kept_lines(s, i);
    }
    if lines.len() > 0 {
        lemma_split_join(lines);
        lemma_kept_all(lines);
    } else {
        let none = Seq::<Seq<char>>::empty();
        let blank = Seq::<char>::empty();
        assert(split_lines(blank) =~= none.push(blank));
        lemma_kept_push(none, blank);
        lemma_kept_empty();
        assert(lines =~= none);
    }
}

/// Normalizing twice gives what normalizing once gives.
pub proof fn law_normal_form_idempotent(s: Seq<char>)
    ensures
        normal_form(normal_form(s)) == normal_form(s),
{
    lemma_normal_form_lines(s);
}

/// A normal form has no empty line and no line that ends in white space,
/// unless it is empty itself.
pub proof fn law_normal_form_is_clean(s: Seq<char>, i: int)
    requires
        0 <= i < split_lines(normal_form(s)).len(),
    ensures
        normal_form(s).len() == 0 || {
            let line = split_lines(normal_form(s))[i];
            line.len() > 0 && !is_white_space(line.last())
        },
{
    lemma_normal_form_lines(s);
    if kept(split_lines(s)).len() > 0 {
        lemma_kept_lines(s, i);
    }
}

/// Two schemas match exactly where they have the same lines, blank lines and
/// trailing white space aside. Nothing else is ignored: the order of the lines
/// and their indentation count.
pub proof fn law_schemas_match_by_lines(a: Seq<char>, b: Seq<char>)
    ensures
        schemas_match(a, b) <==> kept(split_lines(a)) == kept(split_lines(b)),
{
    lemma_normal_form_lines(a);
    lemma_normal_form_lines(b);
}

/// Trailing white space at the end of a text, newlines among it, does not count.
pub proof fn law_trailing_white_space_ignored(s: Seq<char>, c: char)
    requires
        is_white_space(c),
    ensures
        schemas_match(s.push(c), s),
{
    lemma_kept_with_white_space(s, c);
}

/// A schema matches itself, whatever way it was normalized before: once the
/// desired schema, or its normal form, has been written and is read back,
/// nothing remains to be done.
pub proof fn law_written_schema_matches(desired: Seq<char>)
    ensures
        schemas_match(desired, desired),
        schemas_match(normal_form(desired), desired),
{
    law_normal_form_idempotent(desired);
}

/// Trimming removes white space at the end of a line and nothing else: what is
/// left begins the line, everything after it is white space, and it does not end
/// in white space itself.
pub proof fn law_trimming_removes_white_space_only(line: Seq<char>)
    ensures
        trim_end(line).len() <= line.len(),
        forall|i: int| 0 <= i < trim_end(line).len() ==> #[trigger] trim_end(line)[i] == line[i],
        forall|i: int|
            trim_end(line).len() <= i < line.len() ==> is_white_space(#[trigger] line[i]),
        trim_end(line).len() > 0 ==> !is_white_space(line[trim_end(line).len() - 1]),
    decreases line.len(),
{
    lemma_trim_end(line);
    if line.len() > 0 && is_white_space(line.last()) {
        let front = line.drop_last();
        law_trimming_removes_white_space_only(front);
        assert forall|i: int| trim_end(line).len() <= i < line.len() implies is_white_space(
            #[trigger] line[i],
        ) by {
            if i < front.len() {
                assert(front[i] == line[i]);
            }
        }
    }
}

/// A line is kept exactly if it holds a character that is not white space, in
/// its place among the lines, and trimmed.
pub proof fn law_lines_with_text_are_kept(pieces: Seq<Seq<char>>, line: Seq<char>)
    ensures
        (exists|i: int| 0 <= i < line.len() && !is_white_space(#[trigger] line[i])) ==> kept(
            pieces.push(line),
        ) == kept(pieces).push(trim_end(line)),
        (forall|i: int| 0 <= i < line.len() ==> is_white_space(#[trigger] line[i])) ==> kept(
            pieces.push(line),
        ) == kept(pieces),
        kept(Seq::empty()).len() == 0,
{
    lemma_kept_empty();
    lemma_kept_push(pieces, line);
    law_trimming_removes_white_space_only(line);
}

/// Joining the pieces of a text gives the text back.
proof fn lemma_join_split(s: Seq<char>)
    ensures
        join_lines(split_lines(s)) == s,
    decreases s.len(),
{
    if s.len() > 0 {
        let front = s.drop_last();
        let pieces = split_lines(front);
        lemma_join_split(front);
        lemma_split_nonempty(front);
        if s.last() == '\n' {
            assert(pieces.push(Seq::empty()).drop_last() =~= pieces);
            assert(join_lines(split_lines(s)) =~= s);
        } else {
            let extended = pieces.drop_last().push(pieces.last().push(s.last()));
            assert(extended.drop_last() =~= pieces.drop_last());
            assert(join_lines(extended) =~= join_lines(pieces).push(s.last()));
            assert(join_lines(split_lines(s)) =~= s);
        }
    }
}

/// Cutting a text at its newlines loses nothing: the pieces hold no newline, and
/// joined by newlines they are the text again.
pub proof fn law_lines_are_the_text(s: Seq<char>)
    ensures
        join_lines(split_lines(s)) == s,
        forall|i: int, j: int|
            0 <= i < split_lines(s).len() && 0 <= j < split_lines(s)[i].len()
                ==> #[trigger] split_lines(s)[i][j] != '\n',
{
    lemma_join_split(s);
    assert forall|i: int, j: int|
        0 <= i < split_lines(s).len() && 0 <= j < split_lines(s)[i].len() implies #[trigger]
    split_lines(s)[i][j] != '\n' by {
        lemma_split_pieces(s, i);
        assert(split_lines(s)[i].contains(split_lines(s)[i][j]));
    }
}

/// Joining puts one newline between two lines, and nothing before the first or
/// after the last.
pub proof fn law_lines_are_joined_by_newlines(lines: Seq<Seq<char>>, line: Seq<char>)
    ensures
        join_lines(Seq::empty()).len() == 0,
        join_lines(seq![line]) == line,
        lines.len() > 0 ==> join_lines(lines.push(line)) == join_lines(lines) + seq!['\n'] + line,
{
    assert(lines.push(line).drop_last() =~= lines);
    if lines.len() > 0 {
        assert(join_lines(lines.push(line)) =~= join_lines(lines) + seq!['\n'] + line);
    }
}

/// The pieces of a text in which no newline is the first character or comes
/// after white space: all but the last end in a character that is not white
/// space, and so does the last, if the text does.
proof fn lemma_clean_pieces(s: Seq<char>)
    requires
        forall|i: int|
            0 <= i < s.len() && #[trigger] s[i] == '\n' ==> i > 0 && !is_white_space(s[i - 1]),
    ensures
        forall|k: int|
            0 <= k < split_lines(s).len() - 1 ==> (#[trigger] split_lines(s)[k]).len() > 0
                && !is_white_space(split_lines(s)[k].last()),
        s.len() > 0 && s.last() != '\n' ==> split_lines(s).last().len() > 0
            && split_lines(s).last().last() == s.last(),
    decreases s.len(),
{
    if s.len() > 0 {
        let front = s.drop_last();
        let pieces = split_lines(front);
        assert forall|i: int| 0 <= i < front.len() && #[trigger] front[i] == '\n' implies i > 0
            && !is_white_space(front[i - 1]) by {
            assert(s[i] == '\n');
            assert(front[i - 1] == s[i - 1]);
        }
        lemma_clean_pieces(front);
        lemma_split_nonempty(front);
        let n = s.len() - 1;
        if s[n] == '\n' {
            assert(front.last() == s[n - 1]);
            assert forall|k: int| 0 <= k < split_lines(s).len() - 1 implies (
            #[trigger] split_lines(s)[k]).len() > 0 && !is_white_space(
                split_lines(s)[k].last(),
            ) by {
                assert(split_lines(s)[k] == pieces[k]);
            }
        } else {
            assert forall|k: int| 0 <= k < split_lines(s).len() - 1 implies (
            #[trigger] split_lines(s)[k]).len() > 0 && !is_white_space(
                split_lines(s)[k].last(),
            ) by {
                assert(split_lines(s)[k] == pieces[k]);
            }
        }
    }
}

/// A text without anything to ignore is its own normal form: one that does not
/// end in white space, and in which no newline is the first character or comes
/// after white space. Nothing else about a text is changed, its indentation included.
pub proof fn law_clean_text_is_its_normal_form(s: Seq<char>)
    requires
        s.len() > 0 ==> !is_white_space(s.last()),
        forall|i: int|
            0 <= i < s.len() && #[trigger] s[i] == '\n' ==> i > 0 && !is_white_space(s[i - 1]),
    ensures
        normal_form(s) == s,
{
    let pieces = split_lines(s);
    lemma_split_nonempty(s);
    lemma_join_split(s);
    if s.len() == 0 {
        let none = Seq::<Seq<char>>::empty();
        assert(pieces =~= none.push(Seq::empty()));
        lemma_kept_push(none, Seq::empty());
        lemma_kept_empty();
        assert(normal_form(s) =~= s);
    } else {
        lemma_clean_pieces(s);
        assert forall|k: int| 0 <= k < pieces.len() implies (#[trigger] pieces[k]).len() > 0
            && trim_end(pieces[k]) == pieces[k] by {
            if k == pieces.len() - 1 {
                assert(pieces[k] == pieces.last());
            }
        }
        lemma_kept_all(pieces);
    }
}

/// A text that goes on after a newline has the pieces of both parts.
proof fn lemma_split_at_newline(a: Seq<char>, b: Seq<char>)
    ensures
        split_lines(a.push('\n') + b) == split_lines(a) + split_lines(b),
    decreases b.len(),
{
    let whole = a.push('\n') + b;
    if b.len() == 0 {
        assert(whole =~= a.push('\n'));
        assert(whole.drop_last() =~= a);
        assert(split_lines(whole) =~= split_lines(a) + split_lines(b));
    } else {
        let front = b.drop_last();
        lemma_split_at_newline(a, front);
        lemma_split_nonempty(front);
        assert(whole.drop_last() =~= a.push('\n') + front);
        assert(whole.last() == b.last());
        assert(split_lines(whole) =~= split_lines(a) + split_lines(b));
    }
}

/// Lines are kept one by one.
proof fn lemma_kept_concat(p: Seq<Seq<char>>, q: Seq<Seq<char>>)
    ensures
        kept(p + q) == kept(p) + kept(q),
    decreases q.len(),
{
    if q.len() == 0 {
        lemma_kept_empty();
        assert(q =~= Seq::empty());
        assert(p + q =~= p);
        assert(kept(p) + kept(q) =~= kept(p));
    } else {
        let front = q.drop_last();
        lemma_kept_concat(p, front);
        assert(p + q =~= (p + front).push(q.last()));
        assert(q =~= front.push(q.last()));
        lemma_kept_push(p + front, q.last());
        lemma_kept_push(front, q.last());
        assert(kept(p + q) =~= kept(p) + kept(q));
    }
}

/// White space at the end of a text adds nothing to the kept lines.
proof fn lemma_kept_with_white_space(s: Seq<char>, c: char)
    requires
        is_white_space(c),
    ensures
        kept(split_lines(s.push(c))) == kept(split_lines(s)),
{
    let pieces = split_lines(s);
    lemma_split_nonempty(s);
    assert(s.push(c).drop_last() =~= s);
    assert(pieces.drop_last().push(pieces.last()) =~= pieces);
    if c == '\n' {
        lemma_kept_push(pieces, Seq::empty());
    } else {
        let line = pieces.last().push(c);
        assert(line.drop_last() =~= pieces.last());
        lemma_kept_push(pieces.drop_last(), line);
        lemma_kept_push(pieces.drop_last(), pieces.last());
    }
}

/// White space before a newline does not count, a further newline among it; nor
/// does a newline at the start.
pub proof fn law_white_space_before_a_newline_ignored(a: Seq<char>, c: char, b: Seq<char>)
    requires
        is_white_space(c),
    ensures
        normal_form(a.push(c).push('\n') + b) == normal_form(a.push('\n') + b),
        normal_form(seq!['\n'] + b) == normal_form(b),
{
    lemma_split_at_newline(a.push(c), b);
    lemma_split_at_newline(a, b);
    lemma_kept_concat(split_lines(a.push(c)), split_lines(b));
    lemma_kept_concat(split_lines(a), split_lines(b));
    lemma_kept_with_white_space(a, c);
    let none = Seq::<char>::empty();
    let no_lines = Seq::<Seq<char>>::empty();
    lemma_split_at_newline(none, b);
    assert(none.push('\n') =~= seq!['\n']);
    lemma_kept_concat(split_lines(none), split_lines(b));
    assert(split_lines(none) =~= no_lines.push(none));
    lemma_kept_push(no_lines, none);
    lemma_kept_empty();
    assert(no_lines + kept(split_lines(b)) =~= kept(split_lines(b)));
}

/// What ensuring a schema does: nothing if the normal forms are equal, where an
/// unreadable schema counts as empty; otherwise an error if the schema may only
/// be verified, and else a write of the desired text as it is.
pub proof fn law_ensuring_a_schema(
    read: Result<String, AuthError>,
    existing: Seq<char>,
    desired_schema: &str,
    mode: SchemaMode,
    r: Result<SchemaAction, AuthError>,
)
    requires
        read matches Ok(text) ==> existing == text@,
        read is Err ==> existing.len() == 0,
        call_ensures(SchemaManager::ensure_schema, (read, desired_schema, mode), r),
    ensures
        r matches Ok(SchemaAction::UpToDate) <==> normal_form(existing) == normal_form(
            desired_schema@,
        ),
        normal_form(existing) != normal_form(desired_schema@) ==> match mode {
            SchemaMode::VerifyOnly => {
                &&& r matches Err(AuthError::SpiceDbProtocol { operation, message })
                &&& operation@ == "ensure_schema"@
                &&& message@ == "spicedb schema mismatch (VerifyOnly)"@
            },
            SchemaMode::ApplyIfDifferent => {
                &&& r matches Ok(SchemaAction::Write(request))
                &&& request.schema@ == desired_schema@
            },
        },
{
    if read is Err {
        assert(existing =~= Seq::empty());
    }
}

/// Two schemas without anything to ignore match only if they are the same text:
/// a difference in any line is noticed, however the line begins.
pub proof fn law_a_difference_is_noticed(
    existing: String,
    desired_schema: &str,
    mode: SchemaMode,
    r: Result<SchemaAction, AuthError>,
)
    requires
        existing@.len() > 0 ==> !is_white_space(existing@.last()),
        forall|i: int|
            0 <= i < existing@.len() && #[trigger] existing@[i] == '\n' ==> i > 0
                && !is_white_space(existing@[i - 1]),
        desired_schema@.len() > 0 ==> !is_white_space(desired_schema@.last()),
        forall|i: int|
            0 <= i < desired_schema@.len() && #[trigger] desired_schema@[i] == '\n' ==> i > 0
                && !is_white_space(desired_schema@[i - 1]),
        call_ensures(
            SchemaManager::ensure_schema,
            (Ok::<String, AuthError>(existing), desired_schema, mode),
            r,
        ),
    ensures
        r matches Ok(SchemaAction::UpToDate) <==> existing@ == desired_schema@,
{
    law_clean_text_is_its_normal_form(existing@);
    law_clean_text_is_its_normal_form(desired_schema@);
    law_ensuring_a_schema(Ok(existing), existing@, desired_schema, mode, r);
}

/// What normalizing gives: the normal form, and a text without anything to
/// ignore unchanged.
pub proof fn law_normalizing_gives_the_normal_form(s: &str, normal: String)
    requires
        call_ensures(normalize_schema, (s,), normal),
    ensures
        normal@ == normal_form(s@),
        (s@.len() > 0 ==> !is_white_space(s@.last())) && (forall|i: int|
            0 <= i < s@.len() && #[trigger] s@[i] == '\n' ==> i > 0 && !is_white_space(s@[i - 1]))
            ==> normal@ == s@,
{
    if (s@.len() > 0 ==> !is_white_space(s@.last())) && (forall|i: int|
        0 <= i < s@.len() && #[trigger] s@[i] == '\n' ==> i > 0 && !is_white_space(s@[i - 1])) {
        law_clean_text_is_its_normal_form(s@);
    }
}

/// White space is what Unicode says it is: in ASCII the space and the controls
/// from the tab to the carriage return, and no visible character.
pub proof fn law_white_space_in_ascii(c: char)
    requires
        (c as u32) < 128,
    ensures
        is_white_space(c) <==> (c as u32) == 32 || 9 <= (c as u32) <= 13,
{
}

/// A schema that is read is the text that SpiceDB gave, and one that is written
/// is the text that was given; a failed call is reported with its status.
pub proof fn law_schema_calls_carry_the_text(
    read_reply: Result<String, String>,
    read: Result<String, AuthError>,
    text: &str,
    request: WriteSchemaRequest,
    write_reply: Result<(), String>,
    written: Result<(), AuthError>,
)
    requires
        call_ensures(SchemaManager::read_schema_reply, (read_reply,), read),
        call_ensures(SchemaManager::write_schema, (text,), request),
        call_ensures(SchemaManager::write_schema_reply, (write_reply,), written),
    ensures
        read_reply matches Ok(sent) ==> read == Ok::<String, AuthError>(sent),
        read_reply matches Err(sent) ==> {
            &&& read matches Err(AuthError::SpiceDbStatus { operation, status })
            &&& operation@ == "read_schema"@
            &&& status@ == sent@
        },
        request.schema@ == text@,
        written is Ok <==> write_reply is Ok,
        write_reply matches Err(sent) ==> {
            &&& written matches Err(AuthError::SpiceDbStatus { operation, status })
            &&& operation@ == "write_schema"@
            &&& status@ == sent@
        },
{
}

} // verus!
