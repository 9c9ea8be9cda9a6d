use vstd::prelude::*;

use crate::error::PluginError;

verus! {

/// A line without its terminator: one trailing `\n`, and a `\r` just before it.
pub open spec fn line_content(s: Seq<char>) -> Seq<char> {
    if s.len() > 0 && s.last() == '\n' {
        let t = s.drop_last();
        if t.len() > 0 && t.last() == '\r' {
            t.drop_last()
        } else {
            t
        }
    } else {
        s
    }
}

pub open spec fn is_line_break(c: char) -> bool {
    c == '\n' || c == '\r'
}

/// `s` holds no line break: it can stand on a line of its own.
pub open spec fn is_single_line(s: Seq<char>) -> bool {
    forall|i: int| 0 <= i < s.len() ==> !is_line_break(#[trigger] s[i])
}

fn holds_no_line_break(s: &str, end: usize) -> (r: bool)
    requires
        end <= s@.len(),
    ensures
        r == is_single_line(s@.subrange(0, end as int)),
{
    let mut i: usize = 0;
    while i < end
        invariant
            i <= end <= s@.len(),
            forall|j: int| 0 <= j < i ==> !is_line_break(#[trigger] s@[j]),
        decreases end - i,
    {
        let c = s.get_char(i);
        if c == '\n' || c == '\r' {
            assert(is_line_break(s@.subrange(0, end as int)[i as int]));
            return false;
        }
        i = i + 1;
    }
    assert forall|j: int| 0 <= j < end implies !is_line_break(
        #[trigger] s@.subrange(0, end as int)[j],
    ) by {
        assert(!is_line_break(s@[j]));
    }
    true
}

/// The message text carried by one line read from the host. A line that holds
/// a line break before its end carries more than one message and is malformed.
pub fn line_body(line: &str) -> (r: Result<String, PluginError>)
    ensures
        is_single_line(line_content(line@)) ==> r is Ok && r->Ok_0@ == line_content(line@),
        !is_single_line(line_content(line@)) ==> r == Err::<String, PluginError>(
            PluginError::MalformedMessage,
        ),
{
    let n = line.unicode_len();
    let mut end = n;
    if end > 0 && line.get_char(end - 1) == '\n' {
        end = end - 1;
        if end > 0 && line.get_char(end - 1) == '\r' {
            end = end - 1;
        }
    }
    assert(line_content(line@) =~= line@.subrange(0, end as int));
    if holds_no_line_break(line, end) {
        Ok(line.substring_char(0, end).to_owned())
    } else {
        Err(PluginError::MalformedMessage)
    }
}

/// The line that carries `body` to the host: the text and one `\n`. Text that
/// holds a line break cannot stand on one line and is refused.
pub fn frame_line(body: String) -> (r: Result<String, PluginError>)
    ensures
        is_single_line(body@) ==> r is Ok && r->Ok_0@ == body@.push('\n'),
        !is_single_line(body@) ==> r == Err::<String, PluginError>(PluginError::MalformedMessage),
{
    let n = body.as_str().unicode_len();
    assert(body@.subrange(0, n as int) =~= body@);
    if holds_no_line_break(body.as_str(), n) {
        let mut line = body;
        line.append("\n");
        proof {
            reveal_strlit("\n");
        }
        assert(line@ =~= body@.push('\n'));
        Ok(line)
    } else {
        Err(PluginError::MalformedMessage)
    }
}

/// A framed line reads back as the text it carries.
pub proof fn lemma_frame_then_read(body: Seq<char>)
    requires
        is_single_line(body),
    ensures
        line_content(body.push('\n')) == body,
        is_single_line(line_content(body.push('\n'))),
{
    assert(body.push('\n').drop_last() =~= body);
    if body.len() > 0 {
        assert(!is_line_break(body[body.len() - 1]));
    }
}

} // verus!
