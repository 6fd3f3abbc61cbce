//! Markup documents read into the same tree that JSON is read into: an
//! element with child elements becomes an object whose members are the
//! children in document order (a repeated name stays repeated), and an
//! element without children becomes its text, without the whitespace
//! around it.

use vstd::prelude::*;
use vstd::string::*;
use crate::json::{JsonValue, JsonView, Members, jview, members_view};
use quick_xml::events::Event;

verus! {

/// One event of the markup reader, with names and text as plain strings.
pub enum XmlEvent {
    Start(String),
    End,
    Empty(String),
    Text(String),
    Reference(String),
    Eof,
    Skipped,
    Malformed,
}

/// An event with its strings seen as character sequences.
pub enum XmlToken {
    Start(Seq<char>),
    End,
    Empty(Seq<char>),
    Text(Seq<char>),
    Reference(Seq<char>),
    Eof,
    Skipped,
    Malformed,
}

pub open spec fn token(e: XmlEvent) -> XmlToken {
    match e {
        XmlEvent::Start(n) => XmlToken::Start(n@),
        XmlEvent::End => XmlToken::End,
        XmlEvent::Empty(n) => XmlToken::Empty(n@),
        XmlEvent::Text(t) => XmlToken::Text(t@),
        XmlEvent::Reference(n) => XmlToken::Reference(n@),
        XmlEvent::Eof => XmlToken::Eof,
        XmlEvent::Skipped => XmlToken::Skipped,
        XmlEvent::Malformed => XmlToken::Malformed,
    }
}

/// Whether an event ends the reading: the end of the input or an error.
pub open spec fn is_last(t: XmlToken) -> bool {
    t is Eof || t is Malformed
}

/// The events that the markup reader reads from a document, up to and
/// including the first end of input or error.
pub uninterp spec fn xml_events_of(text: Seq<char>) -> Seq<XmlToken>;

/// A sequence of events that ends with its first end of input or error.
pub open spec fn well_ended(s: Seq<XmlToken>) -> bool {
    &&& s.len() > 0
    &&& is_last(s.last())
    &&& forall|i: int| 0 <= i < s.len() - 1 ==> !is_last(#[trigger] s[i])
}

#[verifier::external_type_specification]
#[verifier::external_body]
#[verifier::reject_recursive_types(R)]
pub struct ExXmlReader<R>(quick_xml::Reader<R>);

/// A reader over a document, with the document and the number of events
/// read so far.
struct XmlReader<'a> {
    reader: quick_xml::Reader<&'a [u8]>,
    text: Ghost<Seq<char>>,
    pos: Ghost<int>,
}

/// Relies on `quick_xml::Reader::from_str`: a reader at the start of the
/// document.
#[verifier::external_body]
fn xml_reader<'a>(text: &'a str) -> (r: XmlReader<'a>)
    ensures
        r.text@ == text@,
        r.pos@ == 0,
{
    XmlReader { reader: quick_xml::Reader::from_str(text), text: Ghost(text@), pos: Ghost(0) }
}

/// Relies on `quick_xml::Reader::read_event`: the next event, its variants
/// carried over one by one.
#[verifier::external_body]
fn next_event(r: &mut XmlReader) -> (e: XmlEvent)
    requires
        old(r).pos@ >= 0,
        forall|i: int| 0 <= i < old(r).pos@ ==> !is_last(#[trigger] xml_events_of(old(r).text@)[i]),
    ensures
        final(r).text == old(r).text,
        final(r).pos@ == old(r).pos@ + 1,
        well_ended(xml_events_of(final(r).text@)),
        old(r).pos@ < xml_events_of(old(r).text@).len(),
        token(e) == xml_events_of(old(r).text@)[old(r).pos@],
{
    match r.reader.read_event() {
        Ok(Event::Start(e)) => XmlEvent::Start(e.local_name().as_ref().to_string()),
        Ok(Event::End(_)) => XmlEvent::End,
        Ok(Event::Empty(e)) => XmlEvent::Empty(e.local_name().as_ref().to_string()),
        Ok(Event::Text(t)) => XmlEvent::Text(t.into_inner().into_owned()),
        Ok(Event::CData(t)) => XmlEvent::Text(t.into_inner().into_owned()),
        Ok(Event::GeneralRef(g)) => XmlEvent::Reference(g.into_inner().into_owned()),
        Ok(Event::Eof) => XmlEvent::Eof,
        Ok(_) => XmlEvent::Skipped,
        Err(_) => XmlEvent::Malformed,
    }
}

/// The text that a reference stands for: a character reference, or one of
/// the predefined entities; other references stand for none.
pub uninterp spec fn reference_text_of(name: Seq<char>) -> Option<Seq<char>>;

/// Relies on `quick_xml::events::BytesRef::resolve_char_ref` and
/// `quick_xml::escape::resolve_predefined_entity`.
#[verifier::external_body]
fn resolve_reference(name: &str) -> (r: Option<String>)
    ensures
        r is Some <==> reference_text_of(name@) is Some,
        r matches Some(t) ==> reference_text_of(name@) == Some(t@),
{
    match quick_xml::events::BytesRef::new(name).resolve_char_ref() {
        Ok(Some(c)) => Some(c.to_string()),
        Ok(None) => quick_xml::escape::resolve_predefined_entity(name).map(|t| t.to_string()),
        Err(_) => None,
    }
}

pub open spec fn is_space(c: char) -> bool {
    c == ' ' || c == '\t' || c == '\n' || c == '\r'
}

pub open spec fn trim_start(s: Seq<char>) -> Seq<char>
    decreases s.len(),
{
    if s.len() > 0 && is_space(s[0]) {
        trim_start(s.drop_first())
    } else {
        s
    }
}

pub open spec fn trim_end(s: Seq<char>) -> Seq<char>
    decreases s.len(),
{
    if s.len() > 0 && is_space(s.last()) {
        trim_end(s.drop_last())
    } else {
        s
    }
}

/// The text without the whitespace around it.
pub open spec fn trimmed(s: Seq<char>) -> Seq<char> {
    trim_end(trim_start(s))
}

fn space_at(s: &str, i: usize) -> (r: bool)
    requires
        i < s@.len(),
    ensures
        r == is_space(s@[i as int]),
{
    let c = s.get_char(i);
    c == ' ' || c == '\t' || c == '\n' || c == '\r'
}

/// The text without the whitespace around it.
pub fn trim_space(s: &str) -> (r: String)
    ensures
        r@ == trimmed(s@),
{
    let n = s.unicode_len();
    let mut a: usize = 0;
    assert(s@.subrange(0, n as int) =~= s@);
    while a < n && space_at(s, a)
        invariant
            n == s@.len(),
            a <= n,
            trim_start(s@) == trim_start(s@.subrange(a as int, n as int)),
        decreases n - a,
    {
        assert(s@.subrange(a as int, n as int).drop_first() =~= s@.subrange(a + 1, n as int));
        a = a + 1;
    }
    let mut b: usize = n;
    while b > a && space_at(s, b - 1)
        invariant
            n == s@.len(),
            a <= b <= n,
            trim_start(s@) == s@.subrange(a as int, n as int),
            trim_end(s@.subrange(a as int, n as int)) == trim_end(s@.subrange(a as int, b as int)),
        decreases b - a,
    {
        assert(s@.subrange(a as int, b as int).drop_last() =~= s@.subrange(a as int, b - 1));
        b = b - 1;
    }
    let t = s.substring_char(a, b);
    String::from_str(t)
}

/// An element being read, seen as character sequences.
pub struct FrameView {
    pub name: Seq<char>,
    pub members: Seq<(Seq<char>, JsonView)>,
    pub text: Seq<char>,
}

/// Where the reading of a document stands: the open elements, innermost
/// last, and the root once it is closed.
pub struct TreeState {
    pub stack: Seq<FrameView>,
    pub root: Option<(Seq<char>, JsonView)>,
}

pub enum Step {
    Go(TreeState),
    Done(Option<(Seq<char>, JsonView)>),
}

/// The value of a closed element: its children, or its trimmed text when
/// it has none.
pub open spec fn closed_value(f: FrameView) -> JsonView {
    if f.members.len() == 0 {
        JsonView::Str(trimmed(f.text))
    } else {
        JsonView::Object(f.members)
    }
}

pub open spec fn with_top(st: TreeState, f: FrameView) -> TreeState {
    TreeState { stack: st.stack.drop_last().push(f), root: st.root }
}

/// How one event changes the reading. Text outside the root must be
/// whitespace; a second root, an end tag without a start, a reference that
/// stands for no text, an end of input inside an element, and an error end
/// the reading without a tree.
pub open spec fn step(st: TreeState, t: XmlToken) -> Step {
    let top = st.stack.last();
    match t {
        XmlToken::Start(n) => if st.root is Some {
            Step::Done(None)
        } else {
            Step::Go(TreeState { stack: st.stack.push(FrameView { name: n, members: seq![], text: seq![] }), root: None })
        },
        XmlToken::Empty(n) => if st.stack.len() == 0 {
            if st.root is Some {
                Step::Done(None)
            } else {
                Step::Go(TreeState { stack: st.stack, root: Some((n, JsonView::Str(seq![]))) })
            }
        } else {
            Step::Go(with_top(st, FrameView { members: top.members.push((n, JsonView::Str(seq![]))), ..top }))
        },
        XmlToken::Text(x) => if st.stack.len() == 0 {
            if trimmed(x).len() == 0 {
                Step::Go(st)
            } else {
                Step::Done(None)
            }
        } else {
            Step::Go(with_top(st, FrameView { text: top.text + x, ..top }))
        },
        XmlToken::Reference(n) => if st.stack.len() == 0 || reference_text_of(n) is None {
            Step::Done(None)
        } else {
            Step::Go(with_top(st, FrameView { text: top.text + reference_text_of(n).unwrap(), ..top }))
        },
        XmlToken::End => if st.stack.len() == 0 {
            Step::Done(None)
        } else if st.stack.len() == 1 {
            Step::Go(TreeState { stack: seq![], root: Some((top.name, closed_value(top))) })
        } else {
            let rest = TreeState { stack: st.stack.drop_last(), root: st.root };
            let parent = rest.stack.last();
            Step::Go(with_top(rest, FrameView { members: parent.members.push((top.name, closed_value(top))), ..parent }))
        },
        XmlToken::Eof => if st.stack.len() == 0 {
            Step::Done(st.root)
        } else {
            Step::Done(None)
        },
        XmlToken::Skipped => Step::Go(st),
        XmlToken::Malformed => Step::Done(None),
    }
}

pub open spec fn run(events: Seq<XmlToken>, i: int, st: TreeState) -> Option<(Seq<char>, JsonView)>
    decreases events.len() - i,
{
    if i < 0 || i >= events.len() {
        None
    } else {
        match step(st, events[i]) {
            Step::Done(r) => r,
            Step::Go(next) => run(events, i + 1, next),
        }
    }
}

/// The root element's name and value that a sequence of events describes.
pub open spec fn tree_of(events: Seq<XmlToken>) -> Option<(Seq<char>, JsonView)> {
    run(events, 0, TreeState { stack: seq![], root: None })
}

/// An element being read.
struct Frame {
    name: String,
    members: Members,
    text: String,
}

spec fn frame_view(f: Frame) -> FrameView {
    FrameView { name: f.name@, members: members_view(f.members@), text: f.text@ }
}

spec fn stack_view(s: Seq<Frame>) -> Seq<FrameView> {
    s.map_values(|f: Frame| frame_view(f))
}

fn finish(members: Members, text: String) -> (r: JsonValue)
    ensures
        jview(r) == closed_value(FrameView { name: seq![], members: members_view(members@), text: text@ }),
{
    if members.len() == 0 {
        let t = trim_space(text.as_str());
        JsonValue::Str(t)
    } else {
        proof {
            crate::json::lemma_object_view(members);
        }
        JsonValue::Object(members)
    }
}

/// Reads a document into the name of its root element and the root's
/// value.
pub fn xml_tree(text: &str) -> (r: Option<(String, JsonValue)>)
    ensures
        r is Some <==> tree_of(xml_events_of(text@)) is Some,
        r matches Some(p) ==> tree_of(xml_events_of(text@)) == Some((p.0@, jview(p.1))),
{
    let mut reader = xml_reader(text);
    let mut stack: Vec<Frame> = Vec::new();
    let mut root: Option<(String, JsonValue)> = None;
    let ghost events = xml_events_of(text@);
    assert(stack_view(stack@) =~= Seq::<FrameView>::empty());
    loop
        invariant
            reader.text@ == text@,
            events == xml_events_of(text@),
            reader.pos@ >= 0,
            reader.pos@ > 0 ==> well_ended(events),
            forall|i: int| 0 <= i < reader.pos@ ==> !is_last(#[trigger] events[i]),
            tree_of(events) == run(events, reader.pos@, TreeState { stack: stack_view(stack@), root: opt_root_view(root) }),
        decreases (if reader.pos@ > 0 { events.len() } else { events.len() + 1 }) - reader.pos@,
    {
        let ghost st = TreeState { stack: stack_view(stack@), root: opt_root_view(root) };
        let ghost i = reader.pos@;
        let ev = next_event(&mut reader);
        assert(tree_of(events) == match step(st, token(ev)) {
            Step::Done(r) => r,
            Step::Go(next) => run(events, i + 1, next),
        });
        match ev {
            XmlEvent::Start(name) => {
                if root.is_some() {
                    return None;
                }
                let frame = Frame { name, members: Vec::new(), text: String::new() };
                assert(members_view(frame.members@) =~= Seq::<(Seq<char>, JsonView)>::empty());
                stack.push(frame);
                assert(stack_view(stack@) =~= st.stack.push(FrameView { name: name@, members: seq![], text: seq![] }));
            },
            XmlEvent::Empty(name) => {
                if stack.len() == 0 {
                    if root.is_some() {
                        return None;
                    }
                    let v = JsonValue::Str(String::new());
                    root = Some((name, v));
                } else {
                    let mut top = stack.pop().unwrap();
                    let ghost before = top.members@;
                    top.members.push((name, JsonValue::Str(String::new())));
                    assert(members_view(top.members@) =~= members_view(before).push((name@, JsonView::Str(seq![]))));
                    stack.push(top);
                    assert(stack_view(stack@) =~= with_top(st, FrameView { members: members_view(before).push((name@, JsonView::Str(seq![]))), ..st.stack.last() }).stack);
                }
            },
            XmlEvent::Text(t) => {
                if stack.len() == 0 {
                    if trim_space(t.as_str()).as_str().unicode_len() != 0 {
                        return None;
                    }
                } else {
                    let mut top = stack.pop().unwrap();
                    top.text.append(t.as_str());
                    stack.push(top);
                    assert(stack_view(stack@) =~= with_top(st, FrameView { text: st.stack.last().text + t@, ..st.stack.last() }).stack);
                }
            },
            XmlEvent::Reference(n) => {
                if stack.len() == 0 {
                    return None;
                }
                let t = match resolve_reference(n.as_str()) {
                    Some(t) => t,
                    None => return None,
                };
                let mut top = stack.pop().unwrap();
                top.text.append(t.as_str());
                stack.push(top);
                assert(stack_view(stack@) =~= with_top(st, FrameView { text: st.stack.last().text + t@, ..st.stack.last() }).stack);
            },
            XmlEvent::End => {
                if stack.len() == 0 {
                    return None;
                }
                let done = stack.pop().unwrap();
                let ghost dv = frame_view(done);
                assert(stack_view(stack@) =~= st.stack.drop_last());
                let value = finish(done.members, done.text);
                if stack.len() == 0 {
                    root = Some((done.name, value));
                    assert(stack_view(stack@) =~= Seq::<FrameView>::empty());
                } else {
                    let mut parent = stack.pop().unwrap();
                    let ghost before = parent.members@;
                    parent.members.push((done.name, value));
                    assert(members_view(parent.members@) =~= members_view(before).push((dv.name, closed_value(dv))));
                    stack.push(parent);
                    assert(stack_view(stack@) =~= st.stack.drop_last().drop_last().push(
                        FrameView { members: members_view(before).push((dv.name, closed_value(dv))), ..st.stack.drop_last().last() },
                    ));
                }
            },
            XmlEvent::Eof => {
                if stack.len() != 0 {
                    return None;
                }
                return root;
            },
            XmlEvent::Skipped => {},
            XmlEvent::Malformed => {
                return None;
            },
        }
    }
}

pub open spec fn opt_root_view(r: Option<(String, JsonValue)>) -> Option<(Seq<char>, JsonView)> {
    match r {
        Some(p) => Some((p.0@, jview(p.1))),
        None => None,
    }
}

} // verus!
