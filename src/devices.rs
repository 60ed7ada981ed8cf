use vstd::prelude::*;
use vstd::string::StringExecFns;

verus! {

/// Pattern of the line that names a device in the registry.
pub const NAME_PATTERN: &'static str = "N: Name=\"(?<name>.+)\"";

/// Pattern of the line that lists a device's handlers.
pub const HANDLERS_PATTERN: &'static str = "H: Handlers=(?<handlers>.+)";

/// Pattern of an event handler among a device's handlers.
pub const EVENT_PATTERN: &'static str = "(?<event>event\\d+)";

/// Pattern of the names of the supported controllers.
pub const CONTROLLER_PATTERN: &'static str = "Microsoft (X-Box|Xbox)";

/// Separator between two device entries in the registry text.
pub const ENTRY_SEPARATOR: &'static str = "\n\n";

/// Directory that holds the event files.
pub const EVENT_DIR: &'static str = "/dev/input/";

/// `regex::Regex::new` accepts the pattern.
pub uninterp spec fn regex_accepts(pattern: Seq<char>) -> bool;

/// `regex::Regex::is_match` of the compiled pattern on the haystack.
pub uninterp spec fn regex_finds(pattern: Seq<char>, haystack: Seq<char>) -> bool;

/// The named group of the first match of the compiled pattern in the haystack.
pub uninterp spec fn regex_group(
    pattern: Seq<char>,
    group: Seq<char>,
    haystack: Seq<char>,
) -> Option<Seq<char>>;

/// The pieces that `str::split_whitespace` gives.
pub uninterp spec fn words(s: Seq<char>) -> Seq<Seq<char>>;

/// The pieces that `str::split` on `"\n\n"` gives.
pub uninterp spec fn entries(s: Seq<char>) -> Seq<Seq<char>>;

/// Relies on `regex::Regex::new`, which fails exactly on patterns it rejects,
/// and `regex::Regex::is_match`, whose answer depends on pattern and haystack alone.
#[verifier::external_body]
fn pattern_finds(pattern: &str, haystack: &str) -> (r: Option<bool>)
    ensures
        r is Some <==> regex_accepts(pattern@),
        r matches Some(b) ==> b == regex_finds(pattern@, haystack@),
{
    regex::Regex::new(pattern).ok().map(|re| re.is_match(haystack))
}

/// Relies on `regex::Regex::new`, `regex::Regex::captures` and
/// `regex::Captures::name`: the named group of the first match, if any.
#[verifier::external_body]
fn pattern_group(pattern: &str, group: &str, haystack: &str) -> (r: Option<Option<String>>)
    ensures
        r is Some <==> regex_accepts(pattern@),
        r matches Some(g) ==> match g {
            Some(s) => regex_group(pattern@, group@, haystack@) == Some(s@),
            None => regex_group(pattern@, group@, haystack@) is None,
        },
{
    let re = regex::Regex::new(pattern).ok()?;
    Some(re.captures(haystack).and_then(|c| c.name(group)).map(|m| m.as_str().to_owned()))
}

/// Relies on `str::split_whitespace`.
#[verifier::external_body]
fn split_words(s: &str) -> (r: Vec<String>)
    ensures
        r@.len() == words(s@).len(),
        forall|i: int| 0 <= i < r@.len() ==> #[trigger] r@[i]@ == words(s@)[i],
{
    s.split_whitespace().map(|w| w.to_owned()).collect()
}

/// Relies on `str::split` with the separator `"\n\n"`.
#[verifier::external_body]
fn split_entries(s: &str) -> (r: Vec<String>)
    ensures
        r@.len() == entries(s@).len(),
        forall|i: int| 0 <= i < r@.len() ==> #[trigger] r@[i]@ == entries(s@)[i],
{
    s.split(ENTRY_SEPARATOR).map(|e| e.to_owned()).collect()
}

/// Why a device could not be read or found.
#[derive(Debug, Clone, Copy, PartialEq, Eq, Structural)]
pub enum DeviceError {
    /// A pattern was rejected by the regex engine.
    BadPattern,
    /// The entry has no name line.
    NoName,
    /// The device lists no event handler.
    NoEventHandler,
    /// No device's name matches.
    NotFound,
}

/// One device entry of the registry: its name and its handlers.
#[derive(Debug)]
pub struct Device {
    pub name: String,
    pub handlers: Vec<String>,
}

/// All the device entries of the registry, in order.
#[derive(Debug)]
pub struct Devices(pub Vec<Device>);

/// Abstract device entry: name and handlers as character sequences.
pub struct DeviceView {
    pub name: Seq<char>,
    pub handlers: Seq<Seq<char>>,
}

impl View for Device {
    type V = DeviceView;

    open spec fn view(&self) -> DeviceView {
        DeviceView { name: self.name@, handlers: self.handlers@.map_values(|h: String| h@) }
    }
}

/// The device an entry describes: its name is the `name` group of
/// `NAME_PATTERN`, its handlers the words of the `handlers` group of
/// `HANDLERS_PATTERN` (none where that line is missing).
pub open spec fn device_spec(entry: Seq<char>) -> Result<DeviceView, DeviceError> {
    if !regex_accepts(NAME_PATTERN@) {
        Err(DeviceError::BadPattern)
    } else {
        match regex_group(NAME_PATTERN@, "name"@, entry) {
            None => Err(DeviceError::NoName),
            Some(name) => if !regex_accepts(HANDLERS_PATTERN@) {
                Err(DeviceError::BadPattern)
            } else {
                match regex_group(HANDLERS_PATTERN@, "handlers"@, entry) {
                    None => Ok(DeviceView { name, handlers: Seq::empty() }),
                    Some(hs) => Ok(DeviceView { name, handlers: words(hs) }),
                }
            },
        }
    }
}

/// The devices of the entries that describe one, in order.
pub open spec fn parse_entries(es: Seq<Seq<char>>) -> Seq<DeviceView>
    decreases es.len(),
{
    if es.len() == 0 {
        Seq::empty()
    } else {
        let rest = parse_entries(es.drop_last());
        match device_spec(es.last()) {
            Ok(d) => rest.push(d),
            Err(_) => rest,
        }
    }
}

/// Index of the first of `hs` that `pattern` finds, if any.
pub open spec fn first_found(pattern: Seq<char>, hs: Seq<Seq<char>>) -> Option<int>
    decreases hs.len(),
{
    if hs.len() == 0 {
        None
    } else {
        match first_found(pattern, hs.drop_last()) {
            Some(i) => Some(i),
            None => if regex_finds(pattern, hs.last()) {
                Some(hs.len() - 1)
            } else {
                None
            },
        }
    }
}

/// The devices that a registry text describes, in order.
pub open spec fn registry_devices(text: Seq<char>) -> Seq<DeviceView> {
    parse_entries(entries(text))
}

/// Names of the devices, in order.
pub open spec fn names_of(ds: Seq<Device>) -> Seq<Seq<char>> {
    ds.map_values(|d: Device| d.name@)
}

impl Device {
    /// Reads one registry entry: the name from its `N: Name="..."` line (an
    /// entry without one is `NoName`), the handlers as the words of its
    /// `H: Handlers=...` line (none where that line is missing).
    pub fn from_str(description: &str) -> (r: Result<Device, DeviceError>)
        ensures
            r is Ok <==> device_spec(description@) is Ok,
            r matches Ok(d) ==> device_spec(description@) == Ok::<DeviceView, DeviceError>(d@),
            r matches Err(e) ==> device_spec(description@) == Err::<DeviceView, DeviceError>(e),
    {
        let name = match pattern_group(NAME_PATTERN, "name", description) {
            None => return Err(DeviceError::BadPattern),
            Some(None) => return Err(DeviceError::NoName),
            Some(Some(name)) => name,
        };
        let handlers = match pattern_group(HANDLERS_PATTERN, "handlers", description) {
            None => return Err(DeviceError::BadPattern),
            Some(None) => Vec::new(),
            Some(Some(hs)) => split_words(hs.as_str()),
        };
        let d = Device { name, handlers };
        proof {
            let spec = device_spec(description@)->Ok_0;
            assert(d@.handlers =~= spec.handlers);
        }
        Ok(d)
    }

    /// Path of the device's first event handler (`eventN`), under `EVENT_DIR`.
    pub fn get_event_handler(&self) -> (r: Result<String, DeviceError>)
        ensures
            !regex_accepts(EVENT_PATTERN@) ==> r == Err::<String, DeviceError>(
                DeviceError::BadPattern,
            ),
            regex_accepts(EVENT_PATTERN@) ==> match first_found(EVENT_PATTERN@, self@.handlers) {
                None => r == Err::<String, DeviceError>(DeviceError::NoEventHandler),
                Some(i) => r matches Ok(p) && p@ == EVENT_DIR@ + self@.handlers[i],
            },
    {
        if pattern_finds(EVENT_PATTERN, "").is_none() {
            return Err(DeviceError::BadPattern);
        }
        let ghost hs = self@.handlers;
        let mut i: usize = 0;
        while i < self.handlers.len()
            invariant
                i <= self.handlers@.len(),
                hs == self.handlers@.map_values(|h: String| h@),
                regex_accepts(EVENT_PATTERN@),
                first_found(EVENT_PATTERN@, hs.subrange(0, i as int)) is None,
            decreases self.handlers@.len() - i,
        {
            let h = &self.handlers[i];
            let found = pattern_finds(EVENT_PATTERN, h.as_str());
            assert(hs.subrange(0, i + 1).drop_last() =~= hs.subrange(0, i as int));
            if found == Some(true) {
                assert(first_found(EVENT_PATTERN@, hs.subrange(0, i + 1)) == Some(i as int));
                proof { lemma_first_found_extends(EVENT_PATTERN@, hs, i as int + 1); }
                return Ok(EVENT_DIR.to_owned().concat(h.as_str()));
            }
            i = i + 1;
        }
        assert(hs.subrange(0, i as int) =~= hs);
        Err(DeviceError::NoEventHandler)
    }

    /// The first device of the registry text whose name `pattern` finds.
    pub fn from_registry(text: &str, pattern: &str) -> (r: Result<Device, DeviceError>)
        ensures
            !regex_accepts(pattern@) ==> r == Err::<Device, DeviceError>(DeviceError::BadPattern),
            regex_accepts(pattern@) ==> match first_found(
                pattern@,
                registry_devices(text@).map_values(|d: DeviceView| d.name),
            ) {
                None => r == Err::<Device, DeviceError>(DeviceError::NotFound),
                Some(i) => r matches Ok(d) && d@ == registry_devices(text@)[i],
            },
    {
        let mut devices = Devices::from_text(text);
        assert(names_of(devices.0@) =~= registry_devices(text@).map_values(|d: DeviceView| d.name));
        match devices.get_device_index(pattern) {
            Err(e) => Err(e),
            Ok(None) => Err(DeviceError::NotFound),
            Ok(Some(i)) => {
                let ghost all = devices.0@;
                assert(all.map_values(|d: Device| d@)[i as int] == all[i as int]@);
                let d = devices.0.remove(i);
                Ok(d)
            },
        }
    }
}

/// The first match is at an index of the sequence.
proof fn lemma_first_found_in_range(pattern: Seq<char>, hs: Seq<Seq<char>>)
    ensures
        first_found(pattern, hs) matches Some(i) ==> 0 <= i < hs.len(),
    decreases hs.len(),
{
    if hs.len() > 0 {
        lemma_first_found_in_range(pattern, hs.drop_last());
    }
}

/// A first match among the first `n` items is the first match among all.
proof fn lemma_first_found_extends(pattern: Seq<char>, hs: Seq<Seq<char>>, n: int)
    requires
        0 <= n <= hs.len(),
        first_found(pattern, hs.subrange(0, n)) is Some,
    ensures
        first_found(pattern, hs) == first_found(pattern, hs.subrange(0, n)),
    decreases hs.len() - n,
{
    if n < hs.len() {
        assert(hs.subrange(0, n + 1).drop_last() =~= hs.subrange(0, n));
        lemma_first_found_extends(pattern, hs, n + 1);
    } else {
        assert(hs.subrange(0, n) =~= hs);
    }
}

impl Devices {
    /// Reads every entry of the registry text, skipping those without a device.
    pub fn from_text(text: &str) -> (r: Devices)
        ensures
            r.0@.map_values(|d: Device| d@) == registry_devices(text@),
    {
        let es = split_entries(text);
        let ghost es_v = entries(text@);
        let mut out: Vec<Device> = Vec::new();
        let mut i: usize = 0;
        while i < es.len()
            invariant
                i <= es@.len(),
                es@.len() == es_v.len(),
                forall|k: int| 0 <= k < es@.len() ==> #[trigger] es@[k]@ == es_v[k],
                es_v == entries(text@),
                out@.map_values(|d: Device| d@) == parse_entries(es_v.subrange(0, i as int)),
            decreases es@.len() - i,
        {
            assert(es_v.subrange(0, i + 1).drop_last() =~= es_v.subrange(0, i as int));
            assert(es_v.subrange(0, i + 1).last() == es@[i as int]@);
            let ghost before = out@;
            match Device::from_str(es[i].as_str()) {
                Ok(d) => {
                    out.push(d);
                    assert(out@.map_values(|d: Device| d@) =~= before.map_values(|d: Device| d@).push(
                        out@.last()@,
                    ));
                },
                Err(_) => {},
            }
            i = i + 1;
        }
        assert(es_v.subrange(0, i as int) =~= es_v);
        Devices(out)
    }

    fn get_device_index(&self, pattern: &str) -> (r: Result<Option<usize>, DeviceError>)
        ensures
            !regex_accepts(pattern@) ==> r == Err::<Option<usize>, DeviceError>(
                DeviceError::BadPattern,
            ),
            regex_accepts(pattern@) ==> match first_found(pattern@, names_of(self.0@)) {
                None => r == Ok::<Option<usize>, DeviceError>(None),
                Some(i) => r matches Ok(Some(k)) && k == i && i < self.0@.len(),
            },
    {
        if pattern_finds(pattern, "").is_none() {
            return Err(DeviceError::BadPattern);
        }
        let ghost ns = names_of(self.0@);
        proof { lemma_first_found_in_range(pattern@, ns); }
        let mut i: usize = 0;
        while i < self.0.len()
            invariant
                i <= self.0@.len(),
                ns == names_of(self.0@),
                regex_accepts(pattern@),
                first_found(pattern@, ns.subrange(0, i as int)) is None,
            decreases self.0@.len() - i,
        {
            let found = pattern_finds(pattern, self.0[i].name.as_str());
            assert(ns.subrange(0, i + 1).drop_last() =~= ns.subrange(0, i as int));
            if found == Some(true) {
                assert(first_found(pattern@, ns.subrange(0, i + 1)) == Some(i as int));
                proof { lemma_first_found_extends(pattern@, ns, i as int + 1); }
                return Ok(Some(i));
            }
            i = i + 1;
        }
        assert(ns.subrange(0, i as int) =~= ns);
        Ok(None)
    }

    /// The first device whose name `pattern` finds; `BadPattern` where the
    /// regex engine rejects the pattern.
    pub fn get_device(&self, pattern: &str) -> (r: Result<Option<&Device>, DeviceError>)
        ensures
            !regex_accepts(pattern@) ==> r is Err && r->Err_0 == DeviceError::BadPattern,
            regex_accepts(pattern@) ==> match first_found(pattern@, names_of(self.0@)) {
                None => r matches Ok(None),
                Some(i) => r matches Ok(Some(d)) && *d == self.0@[i],
            },
    {
        match self.get_device_index(pattern) {
            Err(e) => Err(e),
            Ok(None) => Ok(None),
            Ok(Some(i)) => {
                Ok(Some(&self.0[i]))
            },
        }
    }
}

} // verus!
