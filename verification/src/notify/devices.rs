//! The registry of devices that get push notifications.
//!
//! A device is known by its name and reached through the handle that the push relay
//! gave it; the platform's own push token is never seen here. The registry lives in a
//! file. Whoever uses it holds the lock of the file while it loads the registry, lets
//! one operation here change it, and stores it again; an unreadable file is an error
//! and never an empty registry.

use vstd::prelude::*;
use vstd::string::*;
use vstd::utf8::{decode_utf8, encode_utf8, encode_utf8_decode_utf8, valid_utf8};

use crate::seqs::{
    first_index, lemma_filter_meaning, lemma_filter_step, lemma_first_index,
    lemma_first_index_meaning,
};
use crate::text::{decimal, decimal_text, ends_with_char, lemma_ascii_bytes, text_eq, utf8_text};

verus! {

/// File name of the registry inside the data directory.
pub const DEVICES_FILE: &'static str = "push_devices.json";

/// Shortest handle.
pub const MIN_HANDLE_LEN: usize = 32;

/// Longest handle.
pub const MAX_HANDLE_LEN: usize = 128;

/// Shortest device name.
pub const MIN_NAME_LEN: usize = 1;

/// Longest device name.
pub const MAX_NAME_LEN: usize = 64;

/// How much of a handle may be shown or logged. A whole handle is all that the relay
/// asks for, so it stays inside.
pub const HANDLE_PREFIX_LEN: usize = 8;

/// A registered device.
#[derive(Debug, Clone, PartialEq, Eq)]
pub struct PushDevice {
    /// The label that the client chose; no two devices share one.
    pub device_name: String,
    /// The handle that the relay gave out.
    pub push_handle: String,
    /// The platform that the client reported.
    pub platform: String,
    /// When the device was registered, in seconds since the epoch.
    pub registered_at: u64,
}

/// Whether a device has this name.
pub open spec fn has_name(name: Seq<char>) -> spec_fn(PushDevice) -> bool {
    |d: PushDevice| d.device_name@ == name
}

/// The registry after a device was registered: in the place of the first one of that
/// name, or at the end.
pub open spec fn upserted(devices: Seq<PushDevice>, d: PushDevice) -> Seq<PushDevice> {
    let i = first_index(devices, has_name(d.device_name@));
    if i < devices.len() {
        devices.update(i, d)
    } else {
        devices.push(d)
    }
}

/// What a device is removed by.
#[derive(Debug, Clone, Copy, PartialEq, Eq, Structural)]
pub enum Key {
    Name,
    Handle,
}

/// The name or the handle of a device.
pub open spec fn key_of(d: PushDevice, by: Key) -> Seq<char> {
    match by {
        Key::Name => d.device_name@,
        Key::Handle => d.push_handle@,
    }
}

/// Whether a device is another one than the one with this key.
pub open spec fn is_other(by: Key, key: Seq<char>) -> spec_fn(PushDevice) -> bool {
    |d: PushDevice| key_of(d, by) != key
}

/// The registry without the devices of this name.
pub open spec fn without_name(devices: Seq<PushDevice>, name: Seq<char>) -> Seq<PushDevice> {
    devices.filter(is_other(Key::Name, name))
}

/// The registry without the devices with this handle.
pub open spec fn without_handle(devices: Seq<PushDevice>, handle: Seq<char>) -> Seq<PushDevice> {
    devices.filter(is_other(Key::Handle, handle))
}

/// Whether no two devices share a name.
pub open spec fn names_distinct(devices: Seq<PushDevice>) -> bool {
    forall|i: int, j: int|
        0 <= i < j < devices.len() ==> (#[trigger] devices[i]).device_name@ != (
        #[trigger] devices[j]).device_name@
}

/// A registry, and where it is kept.
#[derive(Debug)]
pub struct PushDeviceStore {
    override_path: Option<String>,
    devices: Vec<PushDevice>,
}

impl View for PushDeviceStore {
    type V = Seq<PushDevice>;

    closed spec fn view(&self) -> Seq<PushDevice> {
        self.devices@
    }
}

/// The path of a file in a directory. The empty path is the current directory, and one
/// that ends with a slash needs no other.
pub open spec fn joined(dir: Seq<char>, file: Seq<char>) -> Seq<char> {
    if dir.len() == 0 || dir.last() == '/' {
        dir + file
    } else {
        dir + "/"@ + file
    }
}

impl PushDeviceStore {
    /// The path that was given for the registry, if one was.
    pub closed spec fn place(&self) -> Option<String> {
        self.override_path
    }

    /// A registry in its usual place, not loaded yet.
    pub fn new() -> (s: Self)
        ensures
            s@ == Seq::<PushDevice>::empty(),
            s.place() is None,
    {
        PushDeviceStore { override_path: None, devices: Vec::new() }
    }

    /// A registry in a place of its own, not loaded yet.
    pub fn at_path(path: String) -> (s: Self)
        ensures
            s@ == Seq::<PushDevice>::empty(),
            s.place() == Some(path),
    {
        PushDeviceStore { override_path: Some(path), devices: Vec::new() }
    }

    /// The file of the registry, given the data directory.
    pub fn resolve_path(&self, data_dir: &str) -> (p: String)
        ensures
            p@ == match self.place() {
                Some(path) => path@,
                None => joined(data_dir@, DEVICES_FILE@),
            },
    {
        match &self.override_path {
            Some(p) => p.clone(),
            None => {
                if data_dir.is_empty() || ends_with_char(data_dir, '/') {
                    data_dir.to_owned().concat(DEVICES_FILE)
                } else {
                    data_dir.to_owned().concat("/").concat(DEVICES_FILE)
                }
            },
        }
    }

    /// Takes the devices that were read from the file.
    pub fn load(&mut self, devices: Vec<PushDevice>)
        ensures
            final(self)@ == devices@,
            final(self).place() == old(self).place(),
    {
        self.devices = devices;
    }

    /// Every device.
    pub fn list(&self) -> (r: &Vec<PushDevice>)
        ensures
            r@ == self@,
    {
        &self.devices
    }

    /// How many devices there are.
    pub fn count(&self) -> (n: usize)
        ensures
            n == self@.len(),
    {
        self.devices.len()
    }

    /// Registers a device. A device that registers again under its name replaces what
    /// was known of it.
    pub fn upsert(&mut self, device: PushDevice)
        ensures
            final(self)@ == upserted(old(self)@, device),
            final(self).place() == old(self).place(),
    {
        let ghost p = has_name(device.device_name@);
        let n: usize = self.devices.len();
        let mut i: usize = 0;
        while i < n
            invariant
                i <= n,
                n == self.devices@.len(),
                p == has_name(device.device_name@),
                self.devices@ == old(self).devices@,
                self.override_path == old(self).override_path,
                forall|j: int| 0 <= j < i ==> !p(#[trigger] self.devices@[j]),
            decreases n - i,
        {
            if text_eq(self.devices[i].device_name.as_str(), device.device_name.as_str()) {
                proof {
                    lemma_first_index(self.devices@, p, i as int);
                }
                self.devices.set(i, device);
                return ;
            }
            i = i + 1;
        }
        proof {
            lemma_first_index(self.devices@, p, n as int);
        }
        self.devices.push(device);
    }

    /// Forgets the devices with this key; says whether there was one.
    fn forget(&mut self, by: Key, key: &str) -> (removed: bool)
        ensures
            final(self)@ == old(self)@.filter(is_other(by, key@)),
            final(self).place() == old(self).place(),
            removed == exists|i: int|
                0 <= i < old(self)@.len() && key_of(#[trigger] old(self)@[i], by) == key@,
    {
        let ghost all = self.devices@;
        let ghost p = is_other(by, key@);
        let n: usize = self.devices.len();
        let mut seen: usize = 0;
        let mut i: usize = 0;
        proof {
            reveal(Seq::filter);
            assert(all.take(0).filter(p) =~= Seq::<PushDevice>::empty());
            assert(all.skip(0) =~= all);
        }
        while seen < n
            invariant
                i <= seen <= n,
                n == all.len(),
                p == is_other(by, key@),
                self.override_path == old(self).override_path,
                i == all.take(seen as int).filter(p).len(),
                self.devices@ == all.take(seen as int).filter(p) + all.skip(seen as int),
                i == seen <==> forall|j: int| 0 <= j < seen ==> p(#[trigger] all[j]),
            decreases n - seen,
        {
            let ghost kept = all.take(seen as int).filter(p);
            proof {
                lemma_filter_step(all, p, seen as int);
                assert(self.devices@[i as int] == all[seen as int]);
                assert(all.skip(seen as int).skip(1) =~= all.skip(seen + 1));
            }
            let same = match by {
                Key::Name => text_eq(self.devices[i].device_name.as_str(), key),
                Key::Handle => text_eq(self.devices[i].push_handle.as_str(), key),
            };
            if same {
                proof {
                    assert(!p(all[seen as int]));
                }
                self.devices.remove(i);
                proof {
                    assert(self.devices@ =~= kept + all.skip(seen + 1));
                }
            } else {
                proof {
                    assert(p(all[seen as int]));
                    assert(self.devices@ =~= kept.push(all[seen as int]) + all.skip(seen + 1));
                }
                i = i + 1;
            }
            seen = seen + 1;
        }
        proof {
            assert(all.take(n as int) =~= all);
            assert(all.skip(n as int) =~= Seq::<PushDevice>::empty());
            assert(self.devices@ =~= all.filter(p));
            if i != n {
                let j = choose|j: int| 0 <= j < n && !p(#[trigger] all[j]);
                assert(key_of(old(self)@[j], by) == key@);
            } else {
                assert forall|j: int| 0 <= j < n implies key_of(#[trigger] all[j], by) != key@ by {
                    assert(p(all[j]));
                }
            }
        }
        i != n
    }

    /// Forgets the device of this name; says whether there was one.
    pub fn remove_by_name(&mut self, name: &str) -> (removed: bool)
        ensures
            final(self)@ == without_name(old(self)@, name@),
            final(self).place() == old(self).place(),
            removed == exists|i: int|
                0 <= i < old(self)@.len() && key_of(#[trigger] old(self)@[i], Key::Name) == name@,
    {
        self.forget(Key::Name, name)
    }

    /// Forgets the device with this handle; says whether there was one.
    pub fn remove_by_handle(&mut self, handle: &str) -> (removed: bool)
        ensures
            final(self)@ == without_handle(old(self)@, handle@),
            final(self).place() == old(self).place(),
            removed == exists|i: int|
                0 <= i < old(self)@.len() && key_of(#[trigger] old(self)@[i], Key::Handle)
                    == handle@,
    {
        self.forget(Key::Handle, handle)
    }
}

impl Default for PushDeviceStore {
    fn default() -> (s: Self)
        ensures
            s@ == Seq::<PushDevice>::empty(),
            s.place() is None,
    {
        PushDeviceStore::new()
    }
}

/// The file that is locked while the registry at `path` is used. It is not the registry
/// itself, which is replaced as a whole whenever it is stored.
pub fn lock_path_for(path: &str) -> (p: String)
    ensures
        p@ == path@ + ".lock"@,
{
    path.to_owned().concat(".lock")
}

/// The name under which a registry called `file_name` is written, before it takes the
/// place of the old one in the same directory.
pub fn temp_name_for(file_name: &str) -> (p: String)
    ensures
        p@ == "."@ + file_name@ + ".tmp"@,
{
    ".".to_owned().concat(file_name).concat(".tmp")
}

// ----------------------------------------------------------------- validation

/// Whether a byte is a lowercase hexadecimal digit.
pub open spec fn is_hex(b: u8) -> bool {
    48 <= b <= 57 || 97 <= b <= 102
}

/// Whether a byte may stand in a device name: letters, digits, space, `_`, `.`, `-`.
pub open spec fn is_name_byte(b: u8) -> bool {
    48 <= b <= 57 || 65 <= b <= 90 || 97 <= b <= 122 || b == 32 || b == 95 || b == 46 || b == 45
}

/// Whether a text is acceptable as a handle.
pub open spec fn is_handle(text: Seq<char>) -> bool {
    let b = encode_utf8(text);
    &&& MIN_HANDLE_LEN <= b.len() <= MAX_HANDLE_LEN
    &&& forall|i: int| 0 <= i < b.len() ==> is_hex(#[trigger] b[i])
}

/// Whether a text is acceptable as a device name.
pub open spec fn is_device_name(text: Seq<char>) -> bool {
    let b = encode_utf8(text);
    &&& MIN_NAME_LEN <= b.len() <= MAX_NAME_LEN
    &&& forall|i: int| 0 <= i < b.len() ==> is_name_byte(#[trigger] b[i])
}

/// What is said of a text of the wrong length.
pub open spec fn length_text(range: Seq<char>, got: nat) -> Seq<char> {
    "must be "@ + range + " characters (got "@ + decimal(got) + ")"@
}

fn length_message(range: &str, got: usize) -> (t: String)
    ensures
        t@ == length_text(range@, got as nat),
{
    "must be ".to_owned().concat(range).concat(" characters (got ").concat(
        decimal_text(got as u64).as_str(),
    ).concat(")")
}

/// Accepts a handle, or says what is wrong with it.
pub fn validate_push_handle(handle: &str) -> (r: Result<(), String>)
    ensures
        r is Ok <==> is_handle(handle@),
        r matches Err(t) ==> t@ == if MIN_HANDLE_LEN <= encode_utf8(handle@).len()
            <= MAX_HANDLE_LEN {
            "must be lowercase hex ([0-9a-f])"@
        } else {
            length_text("32-128"@, encode_utf8(handle@).len())
        },
{
    let b = handle.as_bytes();
    let n: usize = b.len();
    if n < MIN_HANDLE_LEN || n > MAX_HANDLE_LEN {
        return Err(length_message("32-128", n));
    }
    let mut i: usize = 0;
    while i < n
        invariant
            i <= n,
            n == b@.len(),
            b@ == encode_utf8(handle@),
            MIN_HANDLE_LEN <= n <= MAX_HANDLE_LEN,
            forall|j: int| 0 <= j < i ==> is_hex(#[trigger] b@[j]),
        decreases n - i,
    {
        let c = b[i];
        if !((48 <= c && c <= 57) || (97 <= c && c <= 102)) {
            proof {
                assert(!is_hex(b@[i as int]));
            }
            return Err("must be lowercase hex ([0-9a-f])".to_owned());
        }
        i = i + 1;
    }
    Ok(())
}

/// Accepts a device name, or says what is wrong with it.
pub fn validate_device_name(name: &str) -> (r: Result<(), String>)
    ensures
        r is Ok <==> is_device_name(name@),
        r matches Err(t) ==> t@ == if MIN_NAME_LEN <= encode_utf8(name@).len() <= MAX_NAME_LEN {
            "must contain only [A-Za-z0-9 _.-]"@
        } else {
            length_text("1-64"@, encode_utf8(name@).len())
        },
{
    let b = name.as_bytes();
    let n: usize = b.len();
    if n < MIN_NAME_LEN || n > MAX_NAME_LEN {
        return Err(length_message("1-64", n));
    }
    let mut i: usize = 0;
    while i < n
        invariant
            i <= n,
            n == b@.len(),
            b@ == encode_utf8(name@),
            MIN_NAME_LEN <= n <= MAX_NAME_LEN,
            forall|j: int| 0 <= j < i ==> is_name_byte(#[trigger] b@[j]),
        decreases n - i,
    {
        let c = b[i];
        if !((48 <= c && c <= 57) || (65 <= c && c <= 90) || (97 <= c && c <= 122) || c == 32 || c
            == 95 || c == 46 || c == 45) {
            proof {
                assert(!is_name_byte(b@[i as int]));
            }
            return Err("must contain only [A-Za-z0-9 _.-]".to_owned());
        }
        i = i + 1;
    }
    Ok(())
}

/// The bytes of a handle that may be shown.
pub open spec fn shown(handle: Seq<char>) -> Seq<u8> {
    let b = encode_utf8(handle);
    if b.len() < HANDLE_PREFIX_LEN {
        b
    } else {
        b.take(HANDLE_PREFIX_LEN as int)
    }
}

/// The part of a handle that may be shown or logged.
pub fn handle_prefix(handle: &str) -> (p: String)
    requires
        valid_utf8(shown(handle@)),
    ensures
        p@ == decode_utf8(shown(handle@)),
{
    let b = handle.as_bytes();
    let n: usize = if b.len() < HANDLE_PREFIX_LEN {
        b.len()
    } else {
        HANDLE_PREFIX_LEN
    };
    let part = vstd::slice::slice_to_vec(vstd::slice::slice_subrange(b, 0, n));
    proof {
        assert(part@ =~= shown(handle@));
    }
    match utf8_text(part) {
        Ok(t) => t,
        Err(_) => String::new(),
    }
}

// ----------------------------------------------------------------------- laws

/// Registering keeps names apart.
pub proof fn law_a_name_is_registered_once(devices: Seq<PushDevice>, d: PushDevice)
    requires
        names_distinct(devices),
    ensures
        names_distinct(upserted(devices, d)),
{
    lemma_first_index_meaning(devices, has_name(d.device_name@));
    let next = upserted(devices, d);
    let k = first_index(devices, has_name(d.device_name@));
    assert forall|i: int, j: int| 0 <= i < j < next.len() implies (
    #[trigger] next[i]).device_name@ != (#[trigger] next[j]).device_name@ by {
        if i < devices.len() && j < devices.len() {
            assert(devices[i].device_name@ != devices[j].device_name@);
            if k < devices.len() {
                assert(has_name(d.device_name@)(devices[k]));
            }
        } else {
            assert(!has_name(d.device_name@)(devices[i]));
        }
    }
}

/// A registered device is there as it was registered, and every device of another name
/// is there as before.
pub proof fn law_registering_replaces_only_that_name(
    devices: Seq<PushDevice>,
    d: PushDevice,
    other: PushDevice,
)
    requires
        names_distinct(devices),
    ensures
        upserted(devices, d).contains(d),
        other.device_name@ != d.device_name@ ==> (upserted(devices, d).contains(other)
            <==> devices.contains(other)),
        other.device_name@ == d.device_name@ && upserted(devices, d).contains(other) ==> other == d,
        upserted(devices, d).len() == devices.len() + if first_index(
            devices,
            has_name(d.device_name@),
        ) < devices.len() {
            0int
        } else {
            1int
        },
{
    let p = has_name(d.device_name@);
    lemma_first_index_meaning(devices, p);
    let k = first_index(devices, p);
    let next = upserted(devices, d);
    assert(next[k] == d);
    if devices.contains(other) && other.device_name@ != d.device_name@ {
        let j = choose|j: int| 0 <= j < devices.len() && devices[j] == other;
        assert(j != k);
        assert(next[j] == other);
    }
    if next.contains(other) {
        let j = choose|j: int| 0 <= j < next.len() && next[j] == other;
        if j != k {
            assert(devices[j] == other);
            if other.device_name@ == d.device_name@ {
                assert(p(devices[j]));
                assert(k < devices.len());
                assert(p(devices[k]));
                assert(devices[k].device_name@ == devices[j].device_name@);
            }
        }
    }
}

/// A registry after several devices were registered, one after the other.
pub open spec fn upserted_all(devices: Seq<PushDevice>, batch: Seq<PushDevice>) -> Seq<PushDevice>
    decreases batch.len(),
{
    if batch.len() == 0 {
        devices
    } else {
        upserted(upserted_all(devices, batch.drop_last()), batch.last())
    }
}

/// Devices of different names that register one after the other are all there in the
/// end, in whatever order they came.
pub proof fn law_no_registration_is_lost(devices: Seq<PushDevice>, batch: Seq<PushDevice>, k: int)
    requires
        names_distinct(devices),
        names_distinct(batch),
        0 <= k < batch.len(),
    ensures
        names_distinct(upserted_all(devices, batch)),
        upserted_all(devices, batch).contains(batch[k]),
    decreases batch.len(),
{
    let init = batch.drop_last();
    assert(names_distinct(init)) by {
        assert forall|i: int, j: int| 0 <= i < j < init.len() implies (
        #[trigger] init[i]).device_name@ != (#[trigger] init[j]).device_name@ by {
            assert(init[i] == batch[i] && init[j] == batch[j]);
        }
    }
    lemma_registering_keeps_names_apart(devices, init);
    let before = upserted_all(devices, init);
    law_a_name_is_registered_once(before, batch.last());
    if k < init.len() {
        law_no_registration_is_lost(devices, init, k);
        assert(batch[k].device_name@ != batch[batch.len() - 1].device_name@);
        law_registering_replaces_only_that_name(before, batch.last(), batch[k]);
    } else {
        law_registering_replaces_only_that_name(before, batch.last(), batch.last());
    }
}

proof fn lemma_registering_keeps_names_apart(devices: Seq<PushDevice>, batch: Seq<PushDevice>)
    requires
        names_distinct(devices),
    ensures
        names_distinct(upserted_all(devices, batch)),
    decreases batch.len(),
{
    if batch.len() > 0 {
        lemma_registering_keeps_names_apart(devices, batch.drop_last());
        law_a_name_is_registered_once(upserted_all(devices, batch.drop_last()), batch.last());
    }
}

/// After a removal no device of that name, or with that handle, is left; every other
/// one is.
pub proof fn law_removing_takes_out_just_that(
    devices: Seq<PushDevice>,
    key: Seq<char>,
    d: PushDevice,
)
    ensures
        without_name(devices, key).contains(d) <==> devices.contains(d) && d.device_name@ != key,
        without_handle(devices, key).contains(d) <==> devices.contains(d) && d.push_handle@ != key,
{
    lemma_filter_meaning(devices, is_other(Key::Name, key));
    lemma_filter_meaning(devices, is_other(Key::Handle, key));
}

/// An accepted handle is plain text: between the shortest and the longest length in
/// characters, each of them a digit or one of `a` to `f`.
pub proof fn law_an_accepted_handle_is_plain_hex(handle: Seq<char>)
    requires
        is_handle(handle),
    ensures
        MIN_HANDLE_LEN <= handle.len() <= MAX_HANDLE_LEN,
        forall|i: int|
            0 <= i < handle.len() ==> ('0' <= #[trigger] handle[i] <= '9' || 'a' <= handle[i]
                <= 'f'),
        valid_utf8(shown(handle)),
        decode_utf8(shown(handle)) == handle.take(HANDLE_PREFIX_LEN as int),
{
    let b = encode_utf8(handle);
    encode_utf8_decode_utf8(handle);
    assert forall|i: int| 0 <= i < b.len() implies #[trigger] b[i] < 128 by {
        assert(is_hex(b[i]));
    }
    lemma_ascii_bytes(b);
    assert forall|i: int| 0 <= i < handle.len() implies ('0' <= #[trigger] handle[i] <= '9' || 'a'
        <= handle[i] <= 'f') by {
        assert(is_hex(b[i]));
        assert(handle[i] == b[i] as char);
    }
    let part = shown(handle);
    assert forall|i: int| 0 <= i < part.len() implies #[trigger] part[i] < 128 by {
        assert(part[i] == b[i]);
    }
    lemma_ascii_bytes(part);
    assert(decode_utf8(part) =~= handle.take(HANDLE_PREFIX_LEN as int));
}

/// An accepted device name has no control character, no slash and nothing beyond ASCII.
pub proof fn law_an_accepted_name_is_printable(name: Seq<char>)
    requires
        is_device_name(name),
    ensures
        MIN_NAME_LEN <= name.len() <= MAX_NAME_LEN,
        forall|i: int| 0 <= i < name.len() ==> ' ' <= #[trigger] name[i] <= 'z' && name[i] != '/',
{
    let b = encode_utf8(name);
    encode_utf8_decode_utf8(name);
    assert forall|i: int| 0 <= i < b.len() implies #[trigger] b[i] < 128 by {
        assert(is_name_byte(b[i]));
    }
    lemma_ascii_bytes(b);
    assert forall|i: int| 0 <= i < name.len() implies ' ' <= #[trigger] name[i] <= 'z' && name[i]
        != '/' by {
        assert(is_name_byte(b[i]));
        assert(name[i] == b[i] as char);
    }
}

} // verus!
