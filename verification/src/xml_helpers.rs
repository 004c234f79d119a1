//! Finding, replacing and removing one element of a domain's XML text,
//! keeping every other byte of the text as it was.
use vstd::prelude::*;
use vstd::string::*;
use vstd::utf8::*;
use crate::text::{find_bytes, find_spec, occurs_at, push_str, str_eq};
use crate::xml_scan::{
    buffer_position, is_final, pending_events, read_event, reader_from_str, reader_offset,
    stream_shape, xml_events, EventModel, XmlEventKind,
};

verus! {

/// The byte range `[start, end)` of an element in a text, and its text.
#[derive(Debug, Clone)]
pub struct XmlSpan {
    pub start: usize,
    pub end: usize,
    pub content: String,
}

/// The element search, one event at a time.
///
/// `prev` is the reader's position before event `i`; `depth` counts the start
/// tags not yet closed; `count` counts the depth-one elements named `tag`
/// passed over; `cap` holds, once the wanted element has opened, its start
/// position and the number of its elements still open (every start tag adds
/// one, every end tag takes one off; the element is complete when this
/// reaches zero).  The `n`-th (from zero) element named `tag` among the
/// children of the top element is the one wanted; its byte range in the
/// reader's input is the result.
pub open spec fn scan_events(
    evs: Seq<EventModel>,
    i: int,
    prev: u64,
    depth: int,
    count: nat,
    cap: Option<(u64, int)>,
    tag: Seq<char>,
    n: nat,
) -> Option<(u64, u64)>
    decreases evs.len() - i,
{
    if i < 0 || i >= evs.len() {
        None
    } else {
        let (kind, name, end) = evs[i];
        if kind == XmlEventKind::Start {
            let d = depth + 1;
            if d == 2 && name == tag && cap is None {
                if count == n {
                    scan_events(evs, i + 1, end, d, count, Some((prev, 1)), tag, n)
                } else {
                    scan_events(evs, i + 1, end, d, count + 1, None, tag, n)
                }
            } else {
                match cap {
                    Some((s, c)) => scan_events(evs, i + 1, end, d, count, Some((s, c + 1)), tag, n),
                    None => scan_events(evs, i + 1, end, d, count, None, tag, n),
                }
            }
        } else if kind == XmlEventKind::End {
            match cap {
                Some((s, c)) => if c - 1 == 0 {
                    Some((s, end))
                } else {
                    scan_events(evs, i + 1, end, depth - 1, count, Some((s, c - 1)), tag, n)
                },
                None => scan_events(evs, i + 1, end, depth - 1, count, cap, tag, n),
            }
        } else if kind == XmlEventKind::Empty {
            if depth == 1 && name == tag && cap is None {
                if count == n {
                    Some((prev, end))
                } else {
                    scan_events(evs, i + 1, end, depth, count + 1, cap, tag, n)
                }
            } else {
                scan_events(evs, i + 1, end, depth, count, cap, tag, n)
            }
        } else if is_final(kind) {
            None
        } else {
            scan_events(evs, i + 1, end, depth, count, cap, tag, n)
        }
    }
}

/// The byte range, relative to `text`, of the `n`-th element named `tag` one
/// level below the top element of `text`.
pub open spec fn element_range(text: Seq<char>, tag: Seq<char>, n: nat) -> Option<(u64, u64)> {
    scan_events(xml_events(text), 0, 0, 0, 0, None, tag, n)
}

/// An event as a plain value: kind, element name, reader position after it.
pub type EventRecord = (XmlEventKind, String, u64);

/// The models of a list of events.
pub open spec fn events_view(evs: Seq<EventRecord>) -> Seq<EventModel> {
    evs.map_values(|e: EventRecord| (e.0, e.1@, e.2))
}

/// The events the reader yields for `text`, through the first end-of-file or
/// error.
fn read_all_events(text: &str) -> (r: Vec<EventRecord>)
    ensures
        events_view(r@) == xml_events(text@),
{
    let mut reader = reader_from_str(text);
    let ghost evs = xml_events(text@);
    let mut r: Vec<EventRecord> = Vec::new();
    assert(evs.skip(0) == evs);
    loop
        invariant
            evs == xml_events(text@),
            stream_shape(evs, text@.len()),
            r@.len() < evs.len(),
            pending_events(reader) == evs.skip(r@.len() as int),
            events_view(r@) == evs.take(r@.len() as int),
        decreases evs.len() - r@.len(),
    {
        let ghost i = r@.len() as int;
        assert(evs.skip(i)[0] == evs[i]);
        let ev = read_event(&mut reader);
        assert(evs.skip(i).drop_first() == evs.skip(i + 1));
        let end = buffer_position(&reader);
        let kind = ev.kind;
        r.push((kind, ev.name, end));
        assert(events_view(r@) == evs.take(i + 1));
        if kind == XmlEventKind::Eof || kind == XmlEventKind::Error {
            assert(i == evs.len() - 1) by {
                if i < evs.len() - 1 {
                    assert(!is_final(evs[i].0));
                }
            }
            assert(evs.take(i + 1) =~= evs);
            return r;
        }
        assert(i != evs.len() - 1);
    }
}

/// The element search run over a list of events: the byte range of the
/// `n`-th element named `tag` one level below the top element, once its end
/// is reached; nothing when the events end first or a final event comes.
pub fn element_range_in_events(evs: &Vec<EventRecord>, tag: &str, n: usize) -> (r: Option<(u64, u64)>)
    ensures
        r == scan_events(events_view(evs@), 0, 0, 0, 0, None, tag@, n as nat),
{
    let ghost ev = events_view(evs@);
    let mut prev: u64 = 0;
    let mut depth: i128 = 0;
    let mut count: usize = 0;
    let mut cap_start: Option<u64> = None;
    let mut cap_depth: i128 = 0;
    let mut i: usize = 0;
    while i < evs.len()
        invariant
            ev == events_view(evs@),
            i <= evs@.len(),
            -(i as int) <= depth <= i,
            count <= n,
            cap_start is Some ==> 1 <= cap_depth <= i,
            scan_events(ev, 0, 0, 0, 0, None, tag@, n as nat) == scan_events(
                ev,
                i as int,
                prev,
                depth as int,
                count as nat,
                match cap_start {
                    Some(s) => Some((s, cap_depth as int)),
                    None => None,
                },
                tag@,
                n as nat,
            ),
        decreases evs@.len() - i,
    {
        let kind = evs[i].0;
        let end = evs[i].2;
        let same = str_eq(evs[i].1.as_str(), tag);
        assert(ev[i as int] == (kind, evs@[i as int].1@, end));
        match kind {
            XmlEventKind::Start => {
                depth = depth + 1;
                if depth == 2 && cap_start.is_none() && same {
                    if count == n {
                        cap_start = Some(prev);
                        cap_depth = 1;
                    } else {
                        count = count + 1;
                    }
                } else if cap_start.is_some() {
                    cap_depth = cap_depth + 1;
                }
            },
            XmlEventKind::End => {
                if cap_start.is_some() {
                    cap_depth = cap_depth - 1;
                    if cap_depth == 0 {
                        let s = cap_start.unwrap();
                        return Some((s, end));
                    }
                }
                depth = depth - 1;
            },
            XmlEventKind::Empty => {
                if depth == 1 && cap_start.is_none() && same {
                    if count == n {
                        return Some((prev, end));
                    }
                    count = count + 1;
                }
            },
            XmlEventKind::Eof => {
                return None;
            },
            XmlEventKind::Error => {
                return None;
            },
            XmlEventKind::Other => {},
        }
        prev = end;
        i = i + 1;
    }
    None
}

/// Runs the element search over the events of `text`.
fn scan_element(text: &str, tag: &str, n: usize) -> (r: Option<(u64, u64)>)
    ensures
        r == element_range(text@, tag@, n as nat),
{
    let evs = read_all_events(text);
    element_range_in_events(&evs, tag, n)
}

/// Whether the text with UTF-8 bytes `bytes` can be cut at byte positions
/// `a` and `b` (`a <= b`, both inside the text and on character boundaries).
pub open spec fn can_slice(bytes: Seq<u8>, a: int, b: int) -> bool {
    &&& 0 <= a <= b <= bytes.len()
    &&& is_char_boundary(bytes, b)
    &&& is_char_boundary(bytes.subrange(0, b), a)
}

/// The text between byte positions `a` and `b` of `s`, when it can be cut there.
fn byte_slice(s: &str, a: usize, b: usize) -> (r: Option<&str>)
    ensures
        match r {
            Some(t) => can_slice(encode_utf8(s@), a as int, b as int)
                && encode_utf8(t@) == encode_utf8(s@).subrange(a as int, b as int),
            None => !can_slice(encode_utf8(s@), a as int, b as int),
        },
{
    let len = s.as_bytes().len();
    if a > b || b > len {
        return None;
    }
    if !s.is_char_boundary(b) {
        return None;
    }
    let (left, _) = s.split_at(b);
    if !left.is_char_boundary(a) {
        return None;
    }
    let (_, mid) = left.split_at(a);
    assert(encode_utf8(s@).subrange(0, b as int).subrange(a as int, b as int) == encode_utf8(
        s@,
    ).subrange(a as int, b as int));
    Some(mid)
}

/// The byte range `[start, end)` of the `<devices>` section: from the first
/// `<devices` to the end of the first `</devices>`.
pub open spec fn devices_bounds(bytes: Seq<u8>) -> Option<(int, int)> {
    match (find_spec(bytes, encode_utf8("<devices"@)), find_spec(bytes, encode_utf8("</devices>"@))) {
        (Some(a), Some(b)) => Some((a as int, (b + encode_utf8("</devices>"@).len()) as int)),
        _ => None,
    }
}

/// Where `find_nth_device_element` finds the `n`-th `tag` child of the
/// devices section of `xml`: byte positions in the whole text.
pub open spec fn device_span(xml: Seq<char>, tag: Seq<char>, n: nat) -> Option<(int, int)> {
    let bytes = encode_utf8(xml);
    match devices_bounds(bytes) {
        Some((a, b)) => if can_slice(bytes, a, b) {
            match element_range(decode_utf8(bytes.subrange(a, b)), tag, n) {
                Some((s, e)) => if can_slice(bytes, a + s, a + e) {
                    Some((a + s, a + e))
                } else {
                    None
                },
                None => None,
            }
        } else {
            None
        },
        None => None,
    }
}

/// Where `find_toplevel_element` finds the first `tag` child of the top
/// element of `xml`: byte positions in the text.
pub open spec fn toplevel_span(xml: Seq<char>, tag: Seq<char>) -> Option<(int, int)> {
    match element_range(xml, tag, 0) {
        Some((s, e)) => if can_slice(encode_utf8(xml), s as int, e as int) {
            Some((s as int, e as int))
        } else {
            None
        },
        None => None,
    }
}

/// What a span found at `range` in `xml` holds.
pub open spec fn span_matches(span: XmlSpan, xml: Seq<char>, range: Option<(int, int)>) -> bool {
    &&& range == Some((span.start as int, span.end as int))
    &&& encode_utf8(span.content@) == encode_utf8(xml).subrange(span.start as int, span.end as int)
}

/// Whether the devices section of `xml` ends before it starts (the text
/// cannot be cut there).
pub open spec fn devices_misordered(xml: Seq<char>) -> bool {
    match devices_bounds(encode_utf8(xml)) {
        Some((a, b)) => b < a,
        None => false,
    }
}

fn span_at(xml: &str, start: usize, end: usize) -> (r: Option<XmlSpan>)
    ensures
        match r {
            Some(sp) => can_slice(encode_utf8(xml@), start as int, end as int) && sp.start == start
                && sp.end == end && encode_utf8(sp.content@) == encode_utf8(xml@).subrange(
                start as int,
                end as int,
            ),
            None => !can_slice(encode_utf8(xml@), start as int, end as int),
        },
{
    match byte_slice(xml, start, end) {
        Some(t) => Some(XmlSpan { start, end, content: crate::text::owned(t) }),
        None => None,
    }
}

/// The start and the text of the devices section of `domain_xml`.
#[verifier::rlimit(30)]
fn devices_section(domain_xml: &str) -> (r: Option<(usize, &str)>)
    requires
        !devices_misordered(domain_xml@),
    ensures
        match r {
            Some((a, t)) => match devices_bounds(encode_utf8(domain_xml@)) {
                Some((a2, b)) => a == a2 && can_slice(encode_utf8(domain_xml@), a2, b) && t@
                    == decode_utf8(encode_utf8(domain_xml@).subrange(a2, b)),
                None => false,
            },
            None => match devices_bounds(encode_utf8(domain_xml@)) {
                Some((a2, b)) => !can_slice(encode_utf8(domain_xml@), a2, b),
                None => true,
            },
        },
{
    let bytes = domain_xml.as_bytes();
    let open_tag = "<devices".as_bytes();
    let close_tag = "</devices>".as_bytes();
    let ds = match find_bytes(bytes, open_tag) {
        Some(i) => i,
        None => return None,
    };
    let dc = match find_bytes(bytes, close_tag) {
        Some(i) => i,
        None => return None,
    };
    assert(occurs_at(bytes@, close_tag@, dc as int));
    let blen = bytes.len();
    let clen = close_tag.len();
    assert(dc + clen <= blen);
    let ghost xb = encode_utf8(domain_xml@);
    assert(bytes@ == xb);
    assert(devices_bounds(xb) == Some((ds as int, dc + close_tag@.len())));
    let section = match byte_slice(domain_xml, ds, dc + clen) {
        Some(t) => t,
        None => return None,
    };
    proof {
        encode_utf8_decode_utf8(section@);
    }
    Some((ds, section))
}

/// The `n`-th (from zero) element named `tag_name` among the children of the
/// `<devices>` section of a domain's XML, with its byte range.
pub fn find_nth_device_element(domain_xml: &str, tag_name: &str, n: usize) -> (r: Option<XmlSpan>)
    requires
        !devices_misordered(domain_xml@),
    ensures
        match r {
            Some(sp) => span_matches(sp, domain_xml@, device_span(domain_xml@, tag_name@, n as nat)),
            None => device_span(domain_xml@, tag_name@, n as nat) is None,
        },
{
    let (ds, section) = match devices_section(domain_xml) {
        Some(p) => p,
        None => return None,
    };
    let bytes = domain_xml.as_bytes();
    let (s, e) = match scan_element(section, tag_name, n) {
        Some(p) => p,
        None => return None,
    };
    let room = (bytes.len() - ds) as u64;
    if s > e || e > room {
        return None;
    }
    span_at(domain_xml, ds + s as usize, ds + e as usize)
}

/// The first element named `tag_name` among the children of the top element
/// of `domain_xml`, with its byte range.
pub fn find_toplevel_element(domain_xml: &str, tag_name: &str) -> (r: Option<XmlSpan>)
    ensures
        match r {
            Some(sp) => span_matches(sp, domain_xml@, toplevel_span(domain_xml@, tag_name@)),
            None => toplevel_span(domain_xml@, tag_name@) is None,
        },
{
    let (s, e) = match scan_element(domain_xml, tag_name, 0) {
        Some(p) => p,
        None => return None,
    };
    let len = domain_xml.as_bytes().len() as u64;
    if s > e || e > len {
        return None;
    }
    span_at(domain_xml, s as usize, e as usize)
}

/// The characters of `xml` before byte position `pos`.
pub open spec fn text_before(xml: Seq<char>, pos: int) -> Seq<char> {
    decode_utf8(encode_utf8(xml).take(pos))
}

/// The characters of `xml` from byte position `pos` on.
pub open spec fn text_after(xml: Seq<char>, pos: int) -> Seq<char> {
    decode_utf8(encode_utf8(xml).skip(pos))
}

/// The text before byte `start` and the text from byte `end` of `xml`.
fn cut_around(xml: &str, start: usize, end: usize) -> (r: (&str, &str))
    requires
        can_slice(encode_utf8(xml@), start as int, end as int),
    ensures
        r.0@ == text_before(xml@, start as int),
        r.1@ == text_after(xml@, end as int),
{
    let (left, right) = xml.split_at(end);
    let (before, _) = left.split_at(start);
    proof {
        encode_utf8_decode_utf8(before@);
        encode_utf8_decode_utf8(right@);
        assert(encode_utf8(xml@).subrange(0, end as int).subrange(0, start as int) =~= encode_utf8(
            xml@,
        ).take(start as int));
        assert(encode_utf8(xml@).subrange(end as int, encode_utf8(xml@).len() as int)
            =~= encode_utf8(xml@).skip(end as int));
    }
    (before, right)
}

/// `xml` with the bytes `[start, end)` replaced by `new_xml`.
fn splice(xml: &str, start: usize, end: usize, new_xml: &str) -> (r: String)
    requires
        can_slice(encode_utf8(xml@), start as int, end as int),
    ensures
        r@ == text_before(xml@, start as int) + new_xml@ + text_after(xml@, end as int),
{
    let (before, after) = cut_around(xml, start, end);
    let mut r = String::new();
    push_str(&mut r, before);
    push_str(&mut r, new_xml);
    push_str(&mut r, after);
    r
}

/// The text `replace_nth_device_element` gives back.
pub open spec fn replaced_device(xml: Seq<char>, tag: Seq<char>, n: nat, new_xml: Seq<char>) -> Option<Seq<char>> {
    match device_span(xml, tag, n) {
        Some((s, e)) => Some(text_before(xml, s) + new_xml + text_after(xml, e)),
        None => None,
    }
}

/// The domain XML with the `n`-th `tag_name` device replaced by `new_xml`;
/// every byte outside that element stays.
pub fn replace_nth_device_element(domain_xml: &str, tag_name: &str, n: usize, new_xml: &str) -> (r: Option<String>)
    requires
        !devices_misordered(domain_xml@),
    ensures
        match r {
            Some(out) => replaced_device(domain_xml@, tag_name@, n as nat, new_xml@) == Some(out@),
            None => replaced_device(domain_xml@, tag_name@, n as nat, new_xml@) is None,
        },
{
    let span = match find_nth_device_element(domain_xml, tag_name, n) {
        Some(sp) => sp,
        None => return None,
    };
    Some(splice(domain_xml, span.start, span.end, new_xml))
}

/// `s` without the spaces and tabs at its end.
pub open spec fn trim_end_blanks(s: Seq<char>) -> Seq<char>
    decreases s.len(),
{
    if s.len() > 0 && (s.last() == ' ' || s.last() == '\t') {
        trim_end_blanks(s.drop_last())
    } else {
        s
    }
}

/// `s` without the spaces and tabs at its start.
pub open spec fn trim_start_blanks(s: Seq<char>) -> Seq<char>
    decreases s.len(),
{
    if s.len() > 0 && (s[0] == ' ' || s[0] == '\t') {
        trim_start_blanks(s.drop_first())
    } else {
        s
    }
}

/// `s` without one line feed at its start, if it has one.
pub open spec fn drop_line_feed(s: Seq<char>) -> Seq<char> {
    if s.len() > 0 && s[0] == '\n' {
        s.drop_first()
    } else {
        s
    }
}

/// The text `remove_nth_device_element` gives back: the text before the
/// element without its trailing blanks, then the text after it without its
/// leading blanks and one line feed.
pub open spec fn removed_device(xml: Seq<char>, tag: Seq<char>, n: nat) -> Option<Seq<char>> {
    match device_span(xml, tag, n) {
        Some((s, e)) => Some(
            trim_end_blanks(text_before(xml, s)) + drop_line_feed(trim_start_blanks(text_after(xml, e))),
        ),
        None => None,
    }
}

fn trim_end_blanks_chars(v: &Vec<char>) -> (r: Vec<char>)
    ensures
        r@ == trim_end_blanks(v@),
{
    let mut b = v.len();
    assert(v@.take(v.len() as int) == v@);
    while b > 0 && (v[b - 1] == ' ' || v[b - 1] == '\t')
        invariant
            b <= v.len(),
            trim_end_blanks(v@.take(b as int)) == trim_end_blanks(v@),
        decreases b,
    {
        assert(v@.take(b as int).drop_last() == v@.take(b - 1));
        b = b - 1;
    }
    assert(v@.subrange(0, b as int) == v@.take(b as int));
    crate::text::sub_chars(v, 0, b)
}

fn trim_start_blanks_chars(v: &Vec<char>) -> (r: Vec<char>)
    ensures
        r@ == trim_start_blanks(v@),
{
    let mut a: usize = 0;
    assert(v@.skip(0) == v@);
    while a < v.len() && (v[a] == ' ' || v[a] == '\t')
        invariant
            a <= v.len(),
            trim_start_blanks(v@.skip(a as int)) == trim_start_blanks(v@),
        decreases v.len() - a,
    {
        assert(v@.skip(a as int).drop_first() == v@.skip(a + 1));
        a = a + 1;
    }
    assert(v@.skip(0) == v@);
    assert(v@.subrange(a as int, v.len() as int) == v@.skip(a as int));
    crate::text::sub_chars(v, a, v.len())
}

/// The domain XML without the `n`-th `tag_name` device, and without the
/// blanks around it and the line feed after it.
pub fn remove_nth_device_element(domain_xml: &str, tag_name: &str, n: usize) -> (r: Option<String>)
    requires
        !devices_misordered(domain_xml@),
    ensures
        match r {
            Some(out) => removed_device(domain_xml@, tag_name@, n as nat) == Some(out@),
            None => removed_device(domain_xml@, tag_name@, n as nat) is None,
        },
{
    let span = match find_nth_device_element(domain_xml, tag_name, n) {
        Some(sp) => sp,
        None => return None,
    };
    let (before, after) = cut_around(domain_xml, span.start, span.end);
    let bv = crate::text::chars_of(before);
    let av = crate::text::chars_of(after);
    let head = trim_end_blanks_chars(&bv);
    let tail = trim_start_blanks_chars(&av);
    let mut r = String::new();
    crate::text::push_chars(&mut r, &head);
    if tail.len() > 0 && tail[0] == '\n' {
        let rest = crate::text::sub_chars(&tail, 1, tail.len());
        assert(rest@ == tail@.drop_first());
        crate::text::push_chars(&mut r, &rest);
    } else {
        crate::text::push_chars(&mut r, &tail);
    }
    Some(r)
}

/// The text `replace_toplevel_element` gives back.
pub open spec fn replaced_toplevel(xml: Seq<char>, tag: Seq<char>, new_xml: Seq<char>) -> Option<Seq<char>> {
    match toplevel_span(xml, tag) {
        Some((s, e)) => Some(text_before(xml, s) + new_xml + text_after(xml, e)),
        None => None,
    }
}

/// The domain XML with the first `tag_name` child of its top element
/// replaced by `new_xml`; every byte outside that element stays.
pub fn replace_toplevel_element(domain_xml: &str, tag_name: &str, new_xml: &str) -> (r: Option<String>)
    ensures
        match r {
            Some(out) => replaced_toplevel(domain_xml@, tag_name@, new_xml@) == Some(out@),
            None => replaced_toplevel(domain_xml@, tag_name@, new_xml@) is None,
        },
{
    let span = match find_toplevel_element(domain_xml, tag_name) {
        Some(sp) => sp,
        None => return None,
    };
    Some(splice(domain_xml, span.start, span.end, new_xml))
}


proof fn lemma_cut_three(xml: Seq<char>, a: int, b: int)
    requires
        can_slice(encode_utf8(xml), a, b),
    ensures
        text_before(xml, a) + decode_utf8(encode_utf8(xml).subrange(a, b)) + text_after(xml, b) == xml,
{
    let bytes = encode_utf8(xml);
    vstd::utf8::encode_utf8_valid_utf8(xml);
    encode_utf8_decode_utf8(xml);
    vstd::utf8::decode_utf8_split(bytes, b);
    vstd::utf8::valid_utf8_split(bytes, b);
    let left = bytes.subrange(0, b);
    vstd::utf8::decode_utf8_split(left, a);
    assert(left.subrange(0, a) =~= bytes.take(a));
    assert(left.subrange(a, left.len() as int) =~= bytes.subrange(a, b));
    assert(bytes.subrange(b, bytes.len() as int) =~= bytes.skip(b));
}

/// Applying the XML tab of a device editor unchanged gives the definition
/// back: replacing the `n`-th `tag` device by its own text changes nothing.
pub proof fn lemma_replace_device_with_itself(xml: Seq<char>, tag: Seq<char>, n: nat)
    requires
        device_span(xml, tag, n) is Some,
    ensures
        ({
            let (s, e) = device_span(xml, tag, n)->0;
            replaced_device(xml, tag, n, decode_utf8(encode_utf8(xml).subrange(s, e))) == Some(xml)
        }),
{
    let (s, e) = device_span(xml, tag, n)->0;
    lemma_cut_three(xml, s, e);
}

/// The same for a child of the top element: replacing it by its own text
/// changes nothing.
pub proof fn lemma_replace_toplevel_with_itself(xml: Seq<char>, tag: Seq<char>)
    requires
        toplevel_span(xml, tag) is Some,
    ensures
        ({
            let (s, e) = toplevel_span(xml, tag)->0;
            replaced_toplevel(xml, tag, decode_utf8(encode_utf8(xml).subrange(s, e))) == Some(xml)
        }),
{
    let (s, e) = toplevel_span(xml, tag)->0;
    lemma_cut_three(xml, s, e);
}

} // verus!
