//! Persists only the transport preference, never credentials or private keys.
use super::route::RouteKind;
use crate::text::{
    ascii_lower, ascii_lower_seq, eq_ignoring_ascii_case, is_whitespace,
    lemma_eq_ignoring_ascii_case_lowered, str_eq_ignore_ascii_case, trim_back, trim_front,
    trim_whitespace, trimmed,
};
use std::path::PathBuf;
use vstd::prelude::*;

verus! {

/// Where the preferred route kind is stored.
pub struct RouteStore {
    path: PathBuf,
}

impl RouteStore {
    pub closed spec fn location(&self) -> PathBuf {
        self.path
    }

    pub fn new(path: PathBuf) -> (r: Self)
        ensures
            r.location() == path,
    {
        RouteStore { path }
    }

    pub fn path(&self) -> (r: &PathBuf)
        ensures
            *r == self.location(),
    {
        &self.path
    }
}

/// The text under which a route kind is stored.
pub open spec fn spec_route_name(route: RouteKind) -> Seq<char> {
    match route {
        RouteKind::Wifi => "wifi\n"@,
        RouteKind::Hotspot => "hotspot\n"@,
        RouteKind::BluetoothPan => "bluetooth_pan\n"@,
        RouteKind::BluetoothNative => "bluetooth_native\n"@,
        RouteKind::Manual => "manual\n"@,
    }
}

pub fn route_name(route: RouteKind) -> (r: &'static str)
    ensures
        r@ == spec_route_name(route),
{
    match route {
        RouteKind::Wifi => "wifi\n",
        RouteKind::Hotspot => "hotspot\n",
        RouteKind::BluetoothPan => "bluetooth_pan\n",
        RouteKind::BluetoothNative => "bluetooth_native\n",
        RouteKind::Manual => "manual\n",
    }
}

/// The route kind whose name `t` is, compared without regard to the case of
/// ASCII letters.
pub open spec fn named_route(t: Seq<char>) -> Option<RouteKind> {
    if eq_ignoring_ascii_case(t, "wifi"@) {
        Some(RouteKind::Wifi)
    } else if eq_ignoring_ascii_case(t, "hotspot"@) {
        Some(RouteKind::Hotspot)
    } else if eq_ignoring_ascii_case(t, "bluetooth_pan"@) {
        Some(RouteKind::BluetoothPan)
    } else if eq_ignoring_ascii_case(t, "bluetooth_native"@) {
        Some(RouteKind::BluetoothNative)
    } else if eq_ignoring_ascii_case(t, "manual"@) {
        Some(RouteKind::Manual)
    } else {
        None
    }
}

/// The route kind stored in a file with this content: the content without
/// surrounding whitespace, ASCII case ignored, must be one of the route names.
pub fn parse_route(content: &str) -> (r: Option<RouteKind>)
    ensures
        r == named_route(trimmed(content@)),
{
    let value = trim_whitespace(content);
    if str_eq_ignore_ascii_case(value, "wifi") {
        Some(RouteKind::Wifi)
    } else if str_eq_ignore_ascii_case(value, "hotspot") {
        Some(RouteKind::Hotspot)
    } else if str_eq_ignore_ascii_case(value, "bluetooth_pan") {
        Some(RouteKind::BluetoothPan)
    } else if str_eq_ignore_ascii_case(value, "bluetooth_native") {
        Some(RouteKind::BluetoothNative)
    } else if str_eq_ignore_ascii_case(value, "manual") {
        Some(RouteKind::Manual)
    } else {
        None
    }
}

/// The name of a route kind as it is matched: its stored name without the
/// line end.
pub open spec fn route_word(route: RouteKind) -> Seq<char> {
    match route {
        RouteKind::Wifi => "wifi"@,
        RouteKind::Hotspot => "hotspot"@,
        RouteKind::BluetoothPan => "bluetooth_pan"@,
        RouteKind::BluetoothNative => "bluetooth_native"@,
        RouteKind::Manual => "manual"@,
    }
}

/// The stored name of a route kind, trimmed, is its word.
proof fn lemma_trimmed_name(route: RouteKind)
    ensures
        trimmed(spec_route_name(route)) == route_word(route),
{
    reveal_strlit("wifi\n");
    reveal_strlit("hotspot\n");
    reveal_strlit("bluetooth_pan\n");
    reveal_strlit("bluetooth_native\n");
    reveal_strlit("manual\n");
    reveal_strlit("wifi");
    reveal_strlit("hotspot");
    reveal_strlit("bluetooth_pan");
    reveal_strlit("bluetooth_native");
    reveal_strlit("manual");
    let t = spec_route_name(route);
    assert(trim_front(t) == t);
    assert(t.drop_last() =~= t.subrange(0, t.len() - 1));
    assert(trimmed(t) == t.drop_last()) by {
        assert(is_whitespace(t.last()));
        let u = t.drop_last();
        assert(!is_whitespace(u.last()));
        assert(trim_back(t) == trim_back(u));
        assert(trim_back(u) == u);
    }
    assert(t.drop_last() =~= route_word(route));
}

/// Reading back what was saved gives the same route: the stored name of a
/// route kind parses to that kind.
pub proof fn lemma_route_name_round_trips(route: RouteKind)
    ensures
        named_route(trimmed(spec_route_name(route))) == Some(route),
{
    lemma_trimmed_name(route);
    lemma_route_words(trimmed(spec_route_name(route)), route);
    lemma_ascii_lower_seq_of_word(route);
}

/// Route words are lower-case ASCII: lower-casing them changes nothing.
proof fn lemma_ascii_lower_seq_of_word(route: RouteKind)
    ensures
        ascii_lower_seq(route_word(route)) == route_word(route),
        forall|i: int|
            0 <= i < route_word(route).len() ==> ascii_lower(#[trigger] route_word(route)[i])
                == route_word(route)[i],
{
    reveal_strlit("wifi");
    reveal_strlit("hotspot");
    reveal_strlit("bluetooth_pan");
    reveal_strlit("bluetooth_native");
    reveal_strlit("manual");
    assert(ascii_lower_seq(route_word(route)) =~= route_word(route));
}

/// A content names a route kind exactly when, trimmed and ASCII-lower-cased,
/// it is that kind's word (the words all differ in length, so at most one
/// matches).
proof fn lemma_route_words(t: Seq<char>, route: RouteKind)
    ensures
        named_route(t) == Some(route) <==> ascii_lower_seq(t) == route_word(route),
{
    reveal_strlit("wifi");
    reveal_strlit("hotspot");
    reveal_strlit("bluetooth_pan");
    reveal_strlit("bluetooth_native");
    reveal_strlit("manual");
    lemma_ascii_lower_seq_of_word(RouteKind::Wifi);
    lemma_ascii_lower_seq_of_word(RouteKind::Hotspot);
    lemma_ascii_lower_seq_of_word(RouteKind::BluetoothPan);
    lemma_ascii_lower_seq_of_word(RouteKind::BluetoothNative);
    lemma_ascii_lower_seq_of_word(RouteKind::Manual);
    lemma_eq_ignoring_ascii_case_lowered(t, route_word(RouteKind::Wifi));
    lemma_eq_ignoring_ascii_case_lowered(t, route_word(RouteKind::Hotspot));
    lemma_eq_ignoring_ascii_case_lowered(t, route_word(RouteKind::BluetoothPan));
    lemma_eq_ignoring_ascii_case_lowered(t, route_word(RouteKind::BluetoothNative));
    lemma_eq_ignoring_ascii_case_lowered(t, route_word(RouteKind::Manual));
}

/// What loading a route file gives: a content names the route kind `route`
/// exactly when, without surrounding whitespace and with ASCII letters
/// lower-cased, it is the name under which `route` is saved, without its
/// line end; a content that is no such name gives nothing.
pub proof fn lemma_parse_route_exactly(content: Seq<char>, route: RouteKind)
    ensures
        named_route(trimmed(content)) == Some(route) <==> ascii_lower_seq(trimmed(content))
            == trimmed(spec_route_name(route)),
        named_route(trimmed(content)) is None <==> forall|k: RouteKind|
            ascii_lower_seq(trimmed(content)) != #[trigger] trimmed(spec_route_name(k)),
{
    lemma_trimmed_name(route);
    lemma_route_words(trimmed(content), route);
    assert forall|k: RouteKind| named_route(trimmed(content)) == Some(k) <==> ascii_lower_seq(
        trimmed(content),
    ) == #[trigger] trimmed(spec_route_name(k)) by {
        lemma_trimmed_name(k);
        lemma_route_words(trimmed(content), k);
    }
    if named_route(trimmed(content)) is Some {
        let k = named_route(trimmed(content))->0;
        assert(ascii_lower_seq(trimmed(content)) == trimmed(spec_route_name(k)));
    }
}

} // verus!
