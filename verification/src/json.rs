//! A JSON document as plain values, and the selection of the gaming devices
//! to hide from the device list that the HidHide CLI prints.
use vstd::prelude::*;
use crate::text::{trimmed, trimmed_chars};

verus! {

/// A JSON value. An object lists its members with distinct keys, in the
/// order the parser hands them out (serde_json's default map sorts them by
/// key); a number keeps its text.
#[derive(Debug)]
pub enum Json {
    Null,
    Bool(bool),
    Number(String),
    Str(String),
    Array(Vec<Json>),
    Object(Vec<(String, Json)>),
}

/// The value of the first member named `key`; null when there is none.
pub open spec fn lookup(members: Seq<(String, Json)>, key: Seq<char>) -> Json
    decreases members.len(),
{
    if members.len() == 0 {
        Json::Null
    } else if members[0].0@ == key {
        members[0].1
    } else {
        lookup(members.drop_first(), key)
    }
}

/// `v[key]`: the member's value for an object, null for anything else.
pub open spec fn member(v: Json, key: Seq<char>) -> Json {
    match v {
        Json::Object(members) => lookup(members@, key),
        _ => Json::Null,
    }
}

pub open spec fn as_array(v: Json) -> Option<Seq<Json>> {
    match v {
        Json::Array(items) => Some(items@),
        _ => None,
    }
}

pub open spec fn as_bool(v: Json) -> Option<bool> {
    match v {
        Json::Bool(b) => Some(b),
        _ => None,
    }
}

pub open spec fn as_str(v: Json) -> Option<Seq<char>> {
    match v {
        Json::Str(s) => Some(s@),
        _ => None,
    }
}

/// The instance path of a device entry that is present and is a gaming
/// device; none for any other entry, or one without a string path.
pub open spec fn device_path(dev: Json) -> Option<Seq<char>> {
    if as_bool(member(dev, "present"@)) == Some(true) && as_bool(member(dev, "gamingDevice"@)) == Some(true) {
        as_str(member(dev, "deviceInstancePath"@))
    } else {
        None
    }
}

/// The paths of the selected entries among `devices`, in order.
pub open spec fn paths_of_devices(devices: Seq<Json>) -> Seq<Seq<char>>
    decreases devices.len(),
{
    if devices.len() == 0 {
        Seq::empty()
    } else {
        paths_of_devices(devices.drop_last()) + match device_path(devices.last()) {
            Some(p) => seq![p],
            None => Seq::empty(),
        }
    }
}

/// The paths selected in a device group: those of its "devices" array.
pub open spec fn group_paths(group: Json) -> Seq<Seq<char>> {
    match as_array(member(group, "devices"@)) {
        Some(devices) => paths_of_devices(devices),
        None => Seq::empty(),
    }
}

/// The paths selected in each group, group after group.
pub open spec fn paths_of_groups(groups: Seq<Json>) -> Seq<Seq<char>>
    decreases groups.len(),
{
    if groups.len() == 0 {
        Seq::empty()
    } else {
        paths_of_groups(groups.drop_last()) + group_paths(groups.last())
    }
}

/// The instance paths of the present gaming devices in a HidHide device
/// list: an array of groups, each with a "devices" array. Anything else
/// selects nothing.
pub open spec fn spec_gaming_device_paths(doc: Json) -> Seq<Seq<char>> {
    match as_array(doc) {
        Some(groups) => paths_of_groups(groups),
        None => Seq::empty(),
    }
}

proof fn lemma_lookup_prefix(members: Seq<(String, Json)>, key: Seq<char>, i: int)
    requires
        0 <= i <= members.len(),
        forall|j: int| 0 <= j < i ==> (#[trigger] members[j]).0@ != key,
    ensures
        lookup(members, key) == lookup(members.subrange(i, members.len() as int), key),
    decreases i,
{
    if i > 0 {
        let rest = members.drop_first();
        assert forall|j: int| 0 <= j < i - 1 implies (#[trigger] rest[j]).0@ != key by {
            assert(rest[j] == members[j + 1]);
        }
        lemma_lookup_prefix(rest, key, i - 1);
        assert(rest.subrange(i - 1, rest.len() as int) =~= members.subrange(i, members.len() as int));
    } else {
        assert(members.subrange(0, members.len() as int) =~= members);
    }
}

/// `v[key]`, or `None` where that is null because `v` is not an object or
/// has no such member.
fn find_member<'a>(v: &'a Json, key: &str) -> (r: Option<&'a Json>)
    ensures
        member(*v, key@) == match r {
            Some(x) => *x,
            None => Json::Null,
        },
{
    match v {
        Json::Object(members) => {
            let key_s = key.to_owned();
            let mut i: usize = 0;
            while i < members.len()
                invariant
                    key_s@ == key@,
                    member(*v, key@) == lookup(members@, key@),
                    0 <= i <= members@.len(),
                    forall|j: int| 0 <= j < i ==> (#[trigger] members@[j]).0@ != key@,
                decreases members.len() - i,
            {
                if members[i].0 == key_s {
                    proof {
                        lemma_lookup_prefix(members@, key@, i as int);
                        assert(members@.subrange(i as int, members@.len() as int)[0] == members@[i as int]);
                    }
                    return Some(&members[i].1);
                }
                i = i + 1;
            }
            proof {
                lemma_lookup_prefix(members@, key@, i as int);
                assert(members@.subrange(i as int, members@.len() as int).len() == 0);
            }
            None
        },
        _ => None,
    }
}

fn member_is_true(v: &Json, key: &str) -> (r: bool)
    ensures
        r == (as_bool(member(*v, key@)) == Some(true)),
{
    match find_member(v, key) {
        Some(Json::Bool(b)) => *b,
        _ => false,
    }
}

fn selected_path(dev: &Json) -> (r: Option<&String>)
    ensures
        device_path(*dev) == match r {
            Some(p) => Some(p@),
            None => None,
        },
{
    if member_is_true(dev, "present") && member_is_true(dev, "gamingDevice") {
        match find_member(dev, "deviceInstancePath") {
            Some(Json::Str(p)) => Some(p),
            _ => None,
        }
    } else {
        None
    }
}

/// The instance paths of the present gaming devices in a HidHide device
/// list, in document order.
pub fn gaming_device_paths(doc: &Json) -> (r: Vec<String>)
    ensures
        r.deep_view() == spec_gaming_device_paths(*doc),
{
    let mut out: Vec<String> = Vec::new();
    if let Json::Array(groups) = doc {
        let mut gi: usize = 0;
        while gi < groups.len()
            invariant
                0 <= gi <= groups@.len(),
                out.deep_view() == paths_of_groups(groups@.take(gi as int)),
            decreases groups.len() - gi,
        {
            let ghost before = out.deep_view();
            if let Some(Json::Array(devices)) = find_member(&groups[gi], "devices") {
                let mut di: usize = 0;
                while di < devices.len()
                    invariant
                        0 <= di <= devices@.len(),
                        out.deep_view() == before + paths_of_devices(devices@.take(di as int)),
                    decreases devices.len() - di,
                {
                    let ghost mid = out.deep_view();
                    match selected_path(&devices[di]) {
                        Some(p) => {
                            out.push(p.clone());
                            assert(out.deep_view() =~= mid.push(p@));
                        },
                        None => {},
                    }
                    assert(devices@.take(di + 1).drop_last() =~= devices@.take(di as int));
                    di = di + 1;
                    assert(out.deep_view() =~= before + paths_of_devices(devices@.take(di as int)));
                }
                assert(devices@.take(di as int) =~= devices@);
            }
            assert(groups@.take(gi + 1).drop_last() =~= groups@.take(gi as int));
            gi = gi + 1;
            assert(out.deep_view() =~= paths_of_groups(groups@.take(gi as int)));
        }
        assert(groups@.take(gi as int) =~= groups@);
    }
    out
}

/// The device at `d` of group `g` of `doc` is a present gaming device with
/// path `p`.
pub open spec fn selects(doc: Json, g: int, d: int, p: Seq<char>) -> bool {
    &&& as_array(doc) matches Some(groups)
    &&& 0 <= g < groups.len()
    &&& as_array(member(groups[g], "devices"@)) matches Some(devices)
    &&& 0 <= d < devices.len()
    &&& device_path(devices[d]) == Some(p)
}

proof fn lemma_devices_sound(devices: Seq<Json>, k: int)
    requires
        0 <= k < paths_of_devices(devices).len(),
    ensures
        exists|d: int| 0 <= d < devices.len() && device_path(#[trigger] devices[d]) == Some(paths_of_devices(devices)[k]),
    decreases devices.len(),
{
    let init = devices.drop_last();
    if k < paths_of_devices(init).len() {
        lemma_devices_sound(init, k);
        let d = choose|d: int| 0 <= d < init.len() && device_path(#[trigger] init[d]) == Some(paths_of_devices(init)[k]);
        assert(devices[d] == init[d]);
    } else {
        assert(device_path(devices[devices.len() - 1]) == Some(paths_of_devices(devices)[k]));
    }
}

proof fn lemma_devices_complete(devices: Seq<Json>, d: int)
    requires
        0 <= d < devices.len(),
        device_path(devices[d]) is Some,
    ensures
        paths_of_devices(devices).contains(device_path(devices[d])->0),
    decreases devices.len(),
{
    let init = devices.drop_last();
    let whole = paths_of_devices(devices);
    if d < devices.len() - 1 {
        assert(init[d] == devices[d]);
        lemma_devices_complete(init, d);
        let k = choose|k: int| 0 <= k < paths_of_devices(init).len() && paths_of_devices(init)[k] == device_path(devices[d])->0;
        assert(whole[k] == paths_of_devices(init)[k]);
    } else {
        assert(whole[whole.len() - 1] == device_path(devices[d])->0);
    }
}

proof fn lemma_groups_sound(groups: Seq<Json>, k: int)
    requires
        0 <= k < paths_of_groups(groups).len(),
    ensures
        exists|g: int, d: int| #![trigger groups[g], as_array(member(groups[g], "devices"@))->0[d]]
            0 <= g < groups.len()
            && as_array(member(groups[g], "devices"@)) is Some
            && 0 <= d < as_array(member(groups[g], "devices"@))->0.len()
            && device_path(as_array(member(groups[g], "devices"@))->0[d]) == Some(paths_of_groups(groups)[k]),
    decreases groups.len(),
{
    let init = groups.drop_last();
    if k < paths_of_groups(init).len() {
        lemma_groups_sound(init, k);
        let (g, d) = choose|g: int, d: int| #![trigger init[g], as_array(member(init[g], "devices"@))->0[d]]
            0 <= g < init.len()
            && as_array(member(init[g], "devices"@)) is Some
            && 0 <= d < as_array(member(init[g], "devices"@))->0.len()
            && device_path(as_array(member(init[g], "devices"@))->0[d]) == Some(paths_of_groups(init)[k]);
        assert(groups[g] == init[g]);
    } else {
        let last = groups[groups.len() - 1];
        let j = k - paths_of_groups(init).len();
        assert(group_paths(last)[j] == paths_of_groups(groups)[k]);
        let devices = as_array(member(last, "devices"@))->0;
        lemma_devices_sound(devices, j);
        let d = choose|d: int| 0 <= d < devices.len() && device_path(#[trigger] devices[d]) == Some(paths_of_devices(devices)[j]);
        assert(groups[groups.len() - 1] == last);
    }
}

proof fn lemma_groups_complete(groups: Seq<Json>, g: int, d: int, p: Seq<char>)
    requires
        0 <= g < groups.len(),
        as_array(member(groups[g], "devices"@)) matches Some(devices)
            && 0 <= d < devices.len() && device_path(devices[d]) == Some(p),
    ensures
        paths_of_groups(groups).contains(p),
    decreases groups.len(),
{
    let init = groups.drop_last();
    let whole = paths_of_groups(groups);
    if g < groups.len() - 1 {
        assert(init[g] == groups[g]);
        lemma_groups_complete(init, g, d, p);
        let k = choose|k: int| 0 <= k < paths_of_groups(init).len() && paths_of_groups(init)[k] == p;
        assert(whole[k] == paths_of_groups(init)[k]);
    } else {
        let devices = as_array(member(groups[g], "devices"@))->0;
        lemma_devices_complete(devices, d);
        let k = choose|k: int| 0 <= k < paths_of_devices(devices).len() && paths_of_devices(devices)[k] == p;
        assert(whole[paths_of_groups(init).len() + k] == p);
    }
}

/// The selection is exactly the present gaming devices: every path it
/// returns is that of a device entry marked present and gaming, and every
/// such entry with a string path has its path returned.
pub proof fn law_selects_exactly_present_gaming_devices(doc: Json, p: Seq<char>)
    ensures
        spec_gaming_device_paths(doc).contains(p) <==> exists|g: int, d: int| selects(doc, g, d, p),
{
    if spec_gaming_device_paths(doc).contains(p) {
        let groups = as_array(doc)->0;
        let k = choose|k: int| 0 <= k < spec_gaming_device_paths(doc).len() && spec_gaming_device_paths(doc)[k] == p;
        lemma_groups_sound(groups, k);
        let (g, d) = choose|g: int, d: int| #![trigger groups[g], as_array(member(groups[g], "devices"@))->0[d]]
            0 <= g < groups.len()
            && as_array(member(groups[g], "devices"@)) is Some
            && 0 <= d < as_array(member(groups[g], "devices"@))->0.len()
            && device_path(as_array(member(groups[g], "devices"@))->0[d]) == Some(paths_of_groups(groups)[k]);
        assert(selects(doc, g, d, p));
    }
    if exists|g: int, d: int| selects(doc, g, d, p) {
        let (g, d) = choose|g: int, d: int| selects(doc, g, d, p);
        lemma_groups_complete(as_array(doc)->0, g, d, p);
    }
}

/// A device list that is not an array selects no device.
pub proof fn law_non_array_selects_nothing(doc: Json)
    requires
        as_array(doc) is None,
    ensures
        spec_gaming_device_paths(doc).len() == 0,
{
}

/// The parser's document value; opaque here, it is only converted.
#[verifier::external_type_specification]
#[verifier::external_body]
pub struct ExJsonValue(serde_json::Value);

/// What `serde_json::from_str::<serde_json::Value>` makes of a text,
/// converted member for member to `Json`; none where it reports an error.
/// A function of the text alone.
pub uninterp spec fn parsed_json(text: Seq<char>) -> Option<Json>;

/// Converts a parsed `serde_json::Value` to `Json`, one variant for one
/// variant; reached only from `parse_json`'s body.
#[verifier::external_body]
fn json_of_value(v: &serde_json::Value) -> Json {
    match v {
        serde_json::Value::Null => Json::Null,
        serde_json::Value::Bool(b) => Json::Bool(*b),
        serde_json::Value::Number(n) => Json::Number(n.to_string()),
        serde_json::Value::String(t) => Json::Str(t.clone()),
        serde_json::Value::Array(items) => Json::Array(items.iter().map(json_of_value).collect()),
        serde_json::Value::Object(m) => Json::Object(m.iter().map(|(k, x)| (k.clone(), json_of_value(x))).collect()),
    }
}

/// Calls `serde_json::from_str::<serde_json::Value>` on `text`; the
/// document it gives is named by `parsed_json` (JSON's grammar is not
/// restated here), and a parse error gives none.
#[verifier::external_body]
pub(crate) fn parse_json(text: &str) -> (r: Option<Json>)
    ensures
        r == parsed_json(text@),
{
    serde_json::from_str::<serde_json::Value>(text).ok().map(|v| json_of_value(&v))
}

/// The paths selected from the text of a HidHide device list: nothing for a
/// blank text or one that does not parse, else the selection from the
/// parsed document.
pub open spec fn spec_gaming_device_paths_in(text: Seq<char>) -> Seq<Seq<char>> {
    if trimmed(text).len() == 0 {
        Seq::empty()
    } else {
        match parsed_json(text) {
            Some(doc) => spec_gaming_device_paths(doc),
            None => Seq::empty(),
        }
    }
}

/// The instance paths of the present gaming devices in the text that
/// `HidHideCLI --dev-gaming` prints.
pub fn gaming_device_paths_in(text: &str) -> (r: Vec<String>)
    ensures
        r.deep_view() == spec_gaming_device_paths_in(text@),
{
    let t = trimmed_chars(text);
    if t.len() == 0 {
        let r: Vec<String> = Vec::new();
        assert(r.deep_view() =~= Seq::<Seq<char>>::empty());
        return r;
    }
    match parse_json(text) {
        Some(doc) => gaming_device_paths(&doc),
        None => {
            let r: Vec<String> = Vec::new();
            assert(r.deep_view() =~= Seq::<Seq<char>>::empty());
            r
        },
    }
}

} // verus!
