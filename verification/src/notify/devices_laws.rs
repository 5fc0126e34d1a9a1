//! What the registry of devices holds after each operation, and which names and handles
//! it takes, stated over its calls.

use vstd::prelude::*;
use vstd::string::*;
use vstd::utf8::{decode_utf8_encode_utf8, encode_utf8, encode_utf8_decode_utf8};

use super::devices::{
    handle_prefix, has_name, is_hex, is_name_byte, is_other, key_of,
    law_an_accepted_handle_is_plain_hex, lock_path_for, temp_name_for, validate_device_name,
    validate_push_handle, Key, PushDevice, PushDeviceStore,
};
use crate::seqs::{first_index, lemma_filter_meaning, lemma_first_index_meaning};
use crate::text::{decimal, lemma_ascii_bytes};

verus! {

/// A device that registers takes the place of the first one of its name, or stands at the
/// end where there is none. Every other device stays where it is.
pub proof fn law_a_device_takes_the_place_of_its_name(
    s: &mut PushDeviceStore,
    d: PushDevice,
    at: int,
)
    requires
        0 <= at <= old(s)@.len(),
        forall|i: int| 0 <= i < at ==> (#[trigger] old(s)@[i]).device_name@ != d.device_name@,
        at < old(s)@.len() ==> old(s)@[at].device_name@ == d.device_name@,
        call_ensures(PushDeviceStore::upsert, (s, d), ()),
    ensures
        final(s)@.len() == (if at < old(s)@.len() {
            old(s)@.len()
        } else {
            old(s)@.len() + 1
        }),
        final(s)@[at] == d,
        forall|i: int|
            0 <= i < old(s)@.len() && i != at ==> #[trigger] final(s)@[i] == old(s)@[i],
        final(s).place() == old(s).place(),
{
    let p = has_name(d.device_name@);
    let all = old(s)@;
    lemma_first_index_meaning(all, p);
    let k = first_index(all, p);
    if at < all.len() {
        assert(p(all[at]));
    }
    if k < at {
        assert(p(all[k]));
    }
    assert(k == at);
}

/// Removing by name takes out the devices of that name and no other, and says whether
/// there was one.
pub proof fn law_removing_by_name(
    s: &mut PushDeviceStore,
    name: &str,
    removed: bool,
    d: PushDevice,
)
    requires
        call_ensures(PushDeviceStore::remove_by_name, (s, name), removed),
    ensures
        final(s)@.contains(d) <==> old(s)@.contains(d) && d.device_name@ != name@,
        old(s)@.contains(d) && d.device_name@ == name@ ==> removed,
        removed ==> exists|i: int|
            0 <= i < old(s)@.len() && (#[trigger] old(s)@[i]).device_name@ == name@,
        !removed ==> final(s)@ == old(s)@,
        final(s).place() == old(s).place(),
{
    let all = old(s)@;
    let p = is_other(Key::Name, name@);
    lemma_filter_meaning(all, p);
    if all.contains(d) && d.device_name@ == name@ {
        let i = choose|i: int| 0 <= i < all.len() && all[i] == d;
        assert(key_of(all[i], Key::Name) == name@);
    }
    if removed {
        let i = choose|i: int| 0 <= i < all.len() && key_of(#[trigger] all[i], Key::Name) == name@;
        assert(all[i].device_name@ == name@);
    } else {
        assert forall|i: int| 0 <= i < all.len() implies p(#[trigger] all[i]) by {
            assert(key_of(all[i], Key::Name) != name@);
        }
        lemma_filter_of_all(all, p);
    }
}

/// Removing by handle takes out the devices with that handle and no other, and says
/// whether there was one.
pub proof fn law_removing_by_handle(
    s: &mut PushDeviceStore,
    handle: &str,
    removed: bool,
    d: PushDevice,
)
    requires
        call_ensures(PushDeviceStore::remove_by_handle, (s, handle), removed),
    ensures
        final(s)@.contains(d) <==> old(s)@.contains(d) && d.push_handle@ != handle@,
        old(s)@.contains(d) && d.push_handle@ == handle@ ==> removed,
        removed ==> exists|i: int|
            0 <= i < old(s)@.len() && (#[trigger] old(s)@[i]).push_handle@ == handle@,
        !removed ==> final(s)@ == old(s)@,
        final(s).place() == old(s).place(),
{
    let all = old(s)@;
    let p = is_other(Key::Handle, handle@);
    lemma_filter_meaning(all, p);
    if all.contains(d) && d.push_handle@ == handle@ {
        let i = choose|i: int| 0 <= i < all.len() && all[i] == d;
        assert(key_of(all[i], Key::Handle) == handle@);
    }
    if removed {
        let i = choose|i: int|
            0 <= i < all.len() && key_of(#[trigger] all[i], Key::Handle) == handle@;
        assert(all[i].push_handle@ == handle@);
    } else {
        assert forall|i: int| 0 <= i < all.len() implies p(#[trigger] all[i]) by {
            assert(key_of(all[i], Key::Handle) != handle@);
        }
        lemma_filter_of_all(all, p);
    }
}

proof fn lemma_filter_of_all(all: Seq<PushDevice>, p: spec_fn(PushDevice) -> bool)
    requires
        forall|i: int| 0 <= i < all.len() ==> p(#[trigger] all[i]),
    ensures
        all.filter(p) == all,
    decreases all.len(),
{
    reveal(Seq::filter);
    if all.len() > 0 {
        let init = all.drop_last();
        assert forall|i: int| 0 <= i < init.len() implies p(#[trigger] init[i]) by {
            assert(init[i] == all[i]);
        }
        lemma_filter_of_all(init, p);
        assert(p(all[all.len() - 1]));
        assert(init.push(all.last()) =~= all);
    }
}

/// What was read is what is there: the devices are listed as they were loaded, and as many
/// as that are counted.
pub proof fn law_a_loaded_registry_is_listed_as_it_is(
    s: &mut PushDeviceStore,
    devices: Vec<PushDevice>,
    listed: &Vec<PushDevice>,
    n: usize,
)
    requires
        call_ensures(PushDeviceStore::load, (s, devices), ()),
        call_ensures(PushDeviceStore::list, (final(s),), listed),
        call_ensures(PushDeviceStore::count, (final(s),), n),
    ensures
        listed@ == devices@,
        n == devices@.len(),
        final(s).place() == old(s).place(),
{
}

/// The registry is where it was said to be, and otherwise in the data directory, with
/// exactly one slash between a directory that ends with none and the file's name.
pub proof fn law_where_the_registry_is_kept(s: &PushDeviceStore, dir: &str, p: String)
    requires
        call_ensures(PushDeviceStore::resolve_path, (s, dir), p),
    ensures
        s.place() matches Some(path) ==> p@ == path@,
        s.place() is None && dir@.len() == 0 ==> p@ == "push_devices.json"@,
        s.place() is None && dir@.len() > 0 && dir@[dir@.len() - 1] == '/' ==> p@ == dir@
            + "push_devices.json"@,
        s.place() is None && dir@.len() > 0 && dir@[dir@.len() - 1] != '/' ==> p@ == dir@ + "/"@
            + "push_devices.json"@,
{
    if dir@.len() == 0 {
        assert(dir@ + "push_devices.json"@ =~= "push_devices.json"@);
    }
}

/// The names of the files beside the registry.
pub proof fn law_the_files_beside_the_registry(path: &str, lock: String, name: &str, temp: String)
    requires
        call_ensures(lock_path_for, (path,), lock),
        call_ensures(temp_name_for, (name,), temp),
    ensures
        lock@ == path@ + ".lock"@,
        temp@ == "."@ + name@ + ".tmp"@,
{
}

/// A character of ASCII is one byte.
proof fn lemma_ascii_char(c: char)
    requires
        (c as int) < 128,
    ensures
        ((c as int) as u8) < 128,
        ((c as int) as u8) as char == c,
{
}

/// The bytes of a text that keeps to ASCII are its characters.
proof fn lemma_ascii_text(text: Seq<char>)
    requires
        forall|i: int| 0 <= i < text.len() ==> (#[trigger] text[i] as int) < 128,
    ensures
        encode_utf8(text) == Seq::new(text.len(), |i: int| (text[i] as int) as u8),
{
    let b = Seq::new(text.len(), |i: int| (text[i] as int) as u8);
    assert forall|i: int| 0 <= i < b.len() implies #[trigger] b[i] < 128 by {
        assert((text[i] as int) < 128);
        lemma_ascii_char(text[i]);
    }
    lemma_ascii_bytes(b);
    assert(vstd::utf8::decode_utf8(b) =~= text) by {
        assert forall|i: int| 0 <= i < text.len() implies vstd::utf8::decode_utf8(b)[i]
            == #[trigger] text[i] by {
            assert((text[i] as int) < 128);
            lemma_ascii_char(text[i]);
            assert(b[i] == (text[i] as int) as u8);
        }
    }
    decode_utf8_encode_utf8(b);
}

/// A handle is accepted exactly if it has 32 to 128 characters, each of them a digit or
/// one of `a` to `f`.
pub proof fn law_the_handles_that_are_accepted(handle: &str, r: Result<(), String>)
    requires
        call_ensures(validate_push_handle, (handle,), r),
    ensures
        r is Ok <==> 32 <= handle@.len() <= 128 && forall|i: int|
            0 <= i < handle@.len() ==> ('0' <= #[trigger] handle@[i] <= '9' || 'a' <= handle@[i]
                <= 'f'),
{
    if r is Ok {
        law_an_accepted_handle_is_plain_hex(handle@);
    }
    if 32 <= handle@.len() <= 128 && forall|i: int|
        0 <= i < handle@.len() ==> ('0' <= #[trigger] handle@[i] <= '9' || 'a' <= handle@[i]
            <= 'f') {
        assert forall|i: int| 0 <= i < handle@.len() implies (#[trigger] handle@[i] as int)
            < 128 by {}
        lemma_ascii_text(handle@);
        let b = encode_utf8(handle@);
        assert forall|i: int| 0 <= i < b.len() implies is_hex(#[trigger] b[i]) by {
            assert(b[i] == (handle@[i] as int) as u8);
        }
    }
}

/// A device name is accepted exactly if it has 1 to 64 characters, each of them a letter
/// or digit of ASCII, a space, an underscore, a dot or a hyphen.
pub proof fn law_the_names_that_are_accepted(name: &str, r: Result<(), String>)
    requires
        call_ensures(validate_device_name, (name,), r),
    ensures
        r is Ok <==> 1 <= name@.len() <= 64 && forall|i: int|
            0 <= i < name@.len() ==> ('0' <= #[trigger] name@[i] <= '9' || 'a' <= name@[i] <= 'z'
                || 'A' <= name@[i] <= 'Z' || name@[i] == ' ' || name@[i] == '_' || name@[i] == '.'
                || name@[i] == '-'),
{
    let b = encode_utf8(name@);
    if r is Ok {
        encode_utf8_decode_utf8(name@);
        assert forall|i: int| 0 <= i < b.len() implies #[trigger] b[i] < 128 by {
            assert(is_name_byte(b[i]));
        }
        lemma_ascii_bytes(b);
        assert forall|i: int| 0 <= i < name@.len() implies ('0' <= #[trigger] name@[i] <= '9'
            || 'a' <= name@[i] <= 'z' || 'A' <= name@[i] <= 'Z' || name@[i] == ' ' || name@[i]
            == '_' || name@[i] == '.' || name@[i] == '-') by {
            assert(is_name_byte(b[i]));
            assert(name@[i] == b[i] as char);
        }
    }
    if 1 <= name@.len() <= 64 && forall|i: int|
        0 <= i < name@.len() ==> ('0' <= #[trigger] name@[i] <= '9' || 'a' <= name@[i] <= 'z'
            || 'A' <= name@[i] <= 'Z' || name@[i] == ' ' || name@[i] == '_' || name@[i] == '.'
            || name@[i] == '-') {
        assert forall|i: int| 0 <= i < name@.len() implies (#[trigger] name@[i] as int) < 128 by {}
        lemma_ascii_text(name@);
        assert forall|i: int| 0 <= i < b.len() implies is_name_byte(#[trigger] b[i]) by {
            assert(b[i] == (name@[i] as int) as u8);
        }
    }
}

/// Of an accepted handle the first eight characters are shown, and no more.
pub proof fn law_eight_characters_of_a_handle_are_shown(
    handle: &str,
    r: Result<(), String>,
    p: String,
)
    requires
        call_ensures(validate_push_handle, (handle,), r),
        r is Ok,
        call_ensures(handle_prefix, (handle,), p),
    ensures
        p@ == handle@.take(8),
{
    law_an_accepted_handle_is_plain_hex(handle@);
}

/// A registry starts empty: in the place that was given, or in its usual one.
pub proof fn law_a_registry_starts_empty(
    usual: PushDeviceStore,
    path: String,
    elsewhere: PushDeviceStore,
)
    requires
        call_ensures(PushDeviceStore::new, (), usual),
        call_ensures(PushDeviceStore::at_path, (path,), elsewhere),
    ensures
        usual@.len() == 0,
        usual.place() is None,
        elsewhere@.len() == 0,
        elsewhere.place() matches Some(p) && p@ == path@,
{
}

/// A handle or a name that is refused is told what is wrong with it: its length, with the
/// range and the length in bytes that it has, or else its characters.
pub proof fn law_a_refused_device_is_told_why(
    handle: &str,
    h: Result<(), String>,
    name: &str,
    n: Result<(), String>,
)
    requires
        call_ensures(validate_push_handle, (handle,), h),
        call_ensures(validate_device_name, (name,), n),
    ensures
        h matches Err(t) ==> t@ == (if 32 <= encode_utf8(handle@).len() <= 128 {
            "must be lowercase hex ([0-9a-f])"@
        } else {
            "must be "@ + "32-128"@ + " characters (got "@ + decimal(encode_utf8(handle@).len())
                + ")"@
        }),
        n matches Err(t) ==> t@ == (if 1 <= encode_utf8(name@).len() <= 64 {
            "must contain only [A-Za-z0-9 _.-]"@
        } else {
            "must be "@ + "1-64"@ + " characters (got "@ + decimal(encode_utf8(name@).len()) + ")"@
        }),
{
}

} // verus!
