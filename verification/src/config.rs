use vstd::prelude::*;

use crate::text::{
    chars_of, first_index, first_index_is_first, joined, quoted, read_unsigned, same_text, split,
    split_on, unsigned_number,
};

verus! {

/// The name of a device and its options, as given on the command line:
/// `name[,key=value]*`.
#[derive(Clone, Debug)]
pub struct DeviceConfig {
    name: String,
    options: Vec<(String, String)>,
}

/// Why a device cannot be configured.
#[derive(Clone, Debug, PartialEq, Eq)]
pub enum DeviceConfigError {
    NameNotFound(String),
    UnparseableOption(String),
    InvalidOption(String),
    InvalidDeviceName(String),
    /// The text that is no number.
    NumberParseError(String),
    Custom(String),
}

/// A `DeviceConfigError` with its text as a sequence.
pub enum ConfigProblem {
    NameNotFound(Seq<char>),
    UnparseableOption(Seq<char>),
    InvalidOption(Seq<char>),
    InvalidDeviceName(Seq<char>),
    NumberParseError(Seq<char>),
    Custom(Seq<char>),
}

impl View for DeviceConfigError {
    type V = ConfigProblem;

    open spec fn view(&self) -> ConfigProblem {
        match self {
            DeviceConfigError::NameNotFound(t) => ConfigProblem::NameNotFound(t@),
            DeviceConfigError::UnparseableOption(t) => ConfigProblem::UnparseableOption(t@),
            DeviceConfigError::InvalidOption(t) => ConfigProblem::InvalidOption(t@),
            DeviceConfigError::InvalidDeviceName(t) => ConfigProblem::InvalidDeviceName(t@),
            DeviceConfigError::NumberParseError(t) => ConfigProblem::NumberParseError(t@),
            DeviceConfigError::Custom(t) => ConfigProblem::Custom(t@),
        }
    }
}

impl ConfigProblem {
    /// What the error says.
    pub open spec fn message_text(self) -> Seq<char> {
        match self {
            ConfigProblem::NameNotFound(t) => "Empty device name in "@ + "`"@ + t + "`"@,
            ConfigProblem::UnparseableOption(t) => "Unable to parse option: "@ + "`"@ + t + "`"@,
            ConfigProblem::InvalidOption(t) => "Invalid option: "@ + "`"@ + t + "`"@,
            ConfigProblem::InvalidDeviceName(t) => "Device name not recognized: "@ + "`"@ + t + "`"@,
            ConfigProblem::NumberParseError(t) => "Failed to parse number: "@ + t,
            ConfigProblem::Custom(t) => t,
        }
    }
}

impl DeviceConfigError {
    /// What the error says.
    pub fn message(&self) -> (r: String)
        ensures
            r@ == self@.message_text(),
    {
        match self {
            DeviceConfigError::NameNotFound(t) => quoted("Empty device name in ", t.as_str()),
            DeviceConfigError::UnparseableOption(t) => quoted(
                "Unable to parse option: ",
                t.as_str(),
            ),
            DeviceConfigError::InvalidOption(t) => quoted("Invalid option: ", t.as_str()),
            DeviceConfigError::InvalidDeviceName(t) => quoted(
                "Device name not recognized: ",
                t.as_str(),
            ),
            DeviceConfigError::NumberParseError(t) => joined(
                "Failed to parse number: ",
                t.as_str(),
            ),
            DeviceConfigError::Custom(t) => String::from_str(t.as_str()),
        }
    }
}

/// The device that a configuration asks for. The host builds it.
#[derive(Clone, Copy, Debug, PartialEq, Eq, Structural)]
pub enum DevicePlan {
    /// A serial port behind a pseudo-terminal, with its registers from
    /// `base_address` on.
    Serial { base_address: u32 },
    /// A framebuffer in a window, with its pixels from `base_address` on.
    Framebuffer { base_address: u32 },
}

/// A result with its error as a `ConfigProblem`.
pub open spec fn config_outcome<T>(r: Result<T, DeviceConfigError>) -> Result<T, ConfigProblem> {
    match r {
        Ok(v) => Ok(v),
        Err(e) => Err(e@),
    }
}

/// The options that a list of `key=value` entries gives; where a key
/// comes twice, the later value stands. The first entry without `=` is an
/// error.
pub open spec fn options_of(entries: Seq<Seq<char>>) -> Result<
    Map<Seq<char>, Seq<char>>,
    ConfigProblem,
>
    decreases entries.len(),
{
    if entries.len() == 0 {
        Ok(Map::empty())
    } else {
        match options_of(entries.drop_last()) {
            Err(e) => Err(e),
            Ok(options) => {
                let entry = entries.last();
                let at = first_index(entry, '=');
                if at < entry.len() {
                    Ok(options.insert(entry.take(at), entry.skip(at + 1)))
                } else {
                    Err(ConfigProblem::UnparseableOption(entry))
                }
            },
        }
    }
}

/// The name and the options that a configuration text gives.
pub open spec fn config_of(text: Seq<char>) -> Result<
    (Seq<char>, Map<Seq<char>, Seq<char>>),
    ConfigProblem,
> {
    let pieces = split_on(text, ',');
    if pieces[0].len() == 0 {
        Err(ConfigProblem::NameNotFound(text))
    } else {
        match options_of(pieces.skip(1)) {
            Ok(options) => Ok((pieces[0], options)),
            Err(e) => Err(e),
        }
    }
}

/// The options that a list of pairs stands for: a later pair replaces an
/// earlier one of the same key.
pub open spec fn map_of(pairs: Seq<(String, String)>) -> Map<Seq<char>, Seq<char>>
    decreases pairs.len(),
{
    if pairs.len() == 0 {
        Map::empty()
    } else {
        map_of(pairs.drop_last()).insert(pairs.last().0@, pairs.last().1@)
    }
}

/// The base address that the `address` option gives, in decimal; `default`
/// without the option.
pub open spec fn base_of(options: Map<Seq<char>, Seq<char>>, default: u32) -> Result<
    u32,
    ConfigProblem,
> {
    if options.contains_key("address"@) {
        match unsigned_number(options["address"@], 10, u32::MAX as nat) {
            Some(v) => Ok(v as u32),
            None => Err(ConfigProblem::NumberParseError(options["address"@])),
        }
    } else {
        Ok(default)
    }
}

/// The key of an entry: what stands before its first `=`.
pub open spec fn key_of(entry: Seq<char>) -> Seq<char> {
    entry.take(first_index(entry, '='))
}

/// The keys of a list of entries, in their order.
pub open spec fn keys_of(entries: Seq<Seq<char>>) -> Seq<Seq<char>> {
    Seq::new(entries.len(), |i: int| key_of(entries[i]))
}

/// The keys of a list of pairs, in their order.
pub open spec fn pair_keys(pairs: Seq<(String, String)>) -> Seq<Seq<char>> {
    Seq::new(pairs.len(), |i: int| pairs[i].0@)
}

/// The first key of a list that is not the key of a known option.
pub open spec fn first_unknown(keys: Seq<Seq<char>>) -> Option<Seq<char>>
    decreases keys.len(),
{
    if keys.len() == 0 {
        None
    } else if keys[0] != "address"@ && keys[0] != "backend"@ {
        Some(keys[0])
    } else {
        first_unknown(keys.drop_first())
    }
}

/// Whether a name is the name of a device.
pub open spec fn known_device(name: Seq<char>) -> bool {
    name == "serial"@ || name == "fb"@ || name == "framebuffer"@
}

/// Whether some option is given but not known.
pub open spec fn some_unknown_option(options: Map<Seq<char>, Seq<char>>) -> bool {
    exists|key: Seq<char>| unknown_option(options, key)
}

/// The device that a name and its options ask for. Only the options
/// `address` and `backend` are known; the backend of a serial port is
/// `pty`, that of a framebuffer `minifb`.
pub open spec fn plan_of(name: Seq<char>, options: Map<Seq<char>, Seq<char>>) -> Result<
    DevicePlan,
    ConfigProblem,
> {
    let serial = name == "serial"@;
    if !serial && name != "fb"@ && name != "framebuffer"@ {
        Err(ConfigProblem::InvalidDeviceName(name))
    } else if exists|key: Seq<char>| unknown_option(options, key) {
        Err(ConfigProblem::InvalidOption(choose|key: Seq<char>| unknown_option(options, key)))
    } else {
        match base_of(
            options,
            if serial {
                0x3f8
            } else {
                0xf00_0000
            },
        ) {
            Err(e) => Err(e),
            Ok(base_address) => if options.contains_key("backend"@) && options["backend"@] != (if serial {
                "pty"@
            } else {
                "minifb"@
            }) {
                Err(ConfigProblem::InvalidOption(options["backend"@]))
            } else if serial {
                Ok(DevicePlan::Serial { base_address })
            } else {
                Ok(DevicePlan::Framebuffer { base_address })
            },
        }
    }
}

/// Whether `key` is an option that is given but not known.
pub open spec fn unknown_option(options: Map<Seq<char>, Seq<char>>, key: Seq<char>) -> bool {
    options.contains_key(key) && key != "address"@ && key != "backend"@
}

impl DeviceConfig {
    /// The name of the device.
    pub closed spec fn name_text(&self) -> Seq<char> {
        self.name@
    }

    /// The options, each key with its value.
    pub closed spec fn options(&self) -> Map<Seq<char>, Seq<char>> {
        map_of(self.options@)
    }

    /// The keys of the options, in the order in which they were given; a
    /// key that was given twice stands twice.
    pub closed spec fn keys(&self) -> Seq<Seq<char>> {
        pair_keys(self.options@)
    }

    /// Reads a configuration: the name up to the first comma, then the
    /// options, each a key and a value around the first `=`.
    pub fn from_str(s: &str) -> (r: Result<DeviceConfig, DeviceConfigError>)
        ensures
            match config_of(s@) {
                Ok((name, options)) => r matches Ok(config) && config.name_text() == name
                    && config.options() == options && config.keys() == keys_of(
                    split_on(s@, ',').skip(1),
                ),
                Err(e) => r matches Err(error) && error@ == e,
            },
    {
        let pieces = split(s, ',');
        let name = pieces[0];
        if name.unicode_len() == 0 {
            return Err(DeviceConfigError::NameNotFound(String::from_str(s)));
        }
        let mut options: Vec<(String, String)> = Vec::new();
        let ghost entries = split_on(s@, ',').skip(1);
        let mut i: usize = 1;
        assert(entries.take(0) =~= Seq::empty());
        while i < pieces.len()
            invariant
                1 <= i <= pieces@.len(),
                pieces@.len() == split_on(s@, ',').len(),
                forall|k: int|
                    0 <= k < pieces@.len() ==> (#[trigger] pieces@[k])@ == split_on(s@, ',')[k],
                entries == split_on(s@, ',').skip(1),
                split_on(s@, ',')[0].len() != 0,
                options_of(entries.take(i - 1)) == Ok::<Map<Seq<char>, Seq<char>>, ConfigProblem>(
                    map_of(options@),
                ),
                pair_keys(options@) == keys_of(entries.take(i - 1)),
            decreases pieces@.len() - i,
        {
            let entry = pieces[i];
            let chars = chars_of(entry);
            proof {
                assert(entries.take(i as int).drop_last() =~= entries.take(i - 1));
                assert(entries.take(i as int).last() == entry@);
                first_index_is_first(entry@, '=');
            }
            let mut at: usize = 0;
            while at < chars.len() && chars[at] != '='
                invariant
                    at <= chars@.len(),
                    forall|j: int| 0 <= j < at ==> chars@[j] != '=',
                decreases chars@.len() - at,
            {
                at += 1;
            }
            proof {
                crate::text::first_is_first_index(entry@, '=', at as int);
            }
            if at >= chars.len() {
                proof {
                    assert(options_of(entries.take(i as int)) == Err::<
                        Map<Seq<char>, Seq<char>>,
                        ConfigProblem,
                    >(ConfigProblem::UnparseableOption(entry@)));
                    unparseable_stays(entries, i as int);
                }
                return Err(DeviceConfigError::UnparseableOption(String::from_str(entry)));
            }
            let key = String::from_str(entry.substring_char(0, at));
            let value = String::from_str(entry.substring_char(at + 1, chars.len()));
            let ghost before = options@;
            options.push((key, value));
            assert(options@.drop_last() =~= before);
            proof {
                assert(key@ =~= key_of(entry@));
                let longer = keys_of(entries.take(i as int));
                let shorter = keys_of(entries.take(i - 1));
                assert(pair_keys(before) == shorter);
                assert(pair_keys(before).len() == before.len());
                assert(shorter.len() == i - 1);
                assert(options@.len() == i);
                assert(options@[i - 1].0@ == key@);
                assert forall|k: int| 0 <= k < longer.len() implies pair_keys(options@)[k]
                    == longer[k] by {
                    if k < i - 1 {
                        assert(pair_keys(options@)[k] == pair_keys(before)[k]);
                        assert(longer[k] == shorter[k]);
                    }
                }
                assert(pair_keys(options@) =~= longer);
            }
            i += 1;
        }
        assert(entries.take(i - 1) =~= entries);
        Ok(DeviceConfig { name: String::from_str(name), options })
    }

    /// The value of an option, if it is given.
    fn lookup(&self, key: &str) -> (r: Option<&String>)
        ensures
            match r {
                Some(value) => self.options().contains_key(key@) && self.options()[key@] == value@,
                None => !self.options().contains_key(key@),
            },
    {
        let mut i: usize = self.options.len();
        assert(self.options@.take(i as int) =~= self.options@);
        while i > 0
            invariant
                i <= self.options@.len(),
                map_of(self.options@).contains_key(key@) == map_of(
                    self.options@.take(i as int),
                ).contains_key(key@),
                map_of(self.options@).contains_key(key@) ==> map_of(self.options@)[key@] == map_of(
                    self.options@.take(i as int),
                )[key@],
            decreases i,
        {
            i -= 1;
            proof {
                assert(self.options@.take(i + 1).drop_last() =~= self.options@.take(i as int));
            }
            if same_text(self.options[i].0.as_str(), key) {
                return Some(&self.options[i].1);
            }
        }
        None
    }

    /// The first option that is not known, if there is one.
    fn unknown(&self) -> (r: Option<&String>)
        ensures
            match r {
                Some(key) => unknown_option(self.options(), key@) && first_unknown(self.keys())
                    == Some(key@),
                None => !some_unknown_option(self.options()) && first_unknown(self.keys()) is None,
            },
    {
        let ghost keys = pair_keys(self.options@);
        let mut i: usize = 0;
        assert(self.options@.take(0) =~= Seq::empty());
        assert(keys.skip(0) =~= keys);
        while i < self.options.len()
            invariant
                i <= self.options@.len(),
                keys == pair_keys(self.options@),
                first_unknown(keys) == first_unknown(keys.skip(i as int)),
                forall|key: Seq<char>| !unknown_option(map_of(self.options@.take(i as int)), key),
            decreases self.options@.len() - i,
        {
            let key = &self.options[i].0;
            proof {
                assert(keys.skip(i as int)[0] == key@);
                assert(keys.skip(i as int).drop_first() =~= keys.skip(i + 1));
            }
            if !same_text(key.as_str(), "address") && !same_text(key.as_str(), "backend") {
                proof {
                    known_later(self.options@, i as int);
                }
                return Some(key);
            }
            assert(key@ == "address"@ || key@ == "backend"@);
            proof {
                let shorter = map_of(self.options@.take(i as int));
                let longer = map_of(self.options@.take(i + 1));
                assert(self.options@.take(i + 1).drop_last() =~= self.options@.take(i as int));
                assert(longer == shorter.insert(key@, self.options@[i as int].1@));
                assert forall|other: Seq<char>| !unknown_option(longer, other) by {
                    if other != key@ {
                        assert(!unknown_option(shorter, other));
                    }
                }
            }
            i += 1;
        }
        assert(self.options@.take(i as int) =~= self.options@);
        None
    }

    /// The base address that the `address` option gives.
    fn base(&self, default: u32) -> (r: Result<u32, DeviceConfigError>)
        ensures
            config_outcome(r) == base_of(self.options(), default),
    {
        match self.lookup("address") {
            Some(text) => {
                let chars = chars_of(text.as_str());
                assert(chars@.skip(0) =~= chars@);
                match read_unsigned(&chars, 0, 10, 0xffff_ffff) {
                    Some(v) => Ok(v as u32),
                    None => Err(DeviceConfigError::NumberParseError(String::from_str(text.as_str()))),
                }
            },
            None => Ok(default),
        }
    }

    /// Tells which device the configuration asks for. An unknown device
    /// name comes first among the errors, whatever the options; then the
    /// first option that is not known, named by its key; then an address
    /// that is no number; then a backend that the device does not have.
    pub fn into_device(self) -> (r: Result<DevicePlan, DeviceConfigError>)
        ensures
            known_device(self.name_text()) && some_unknown_option(self.options()) ==> (r matches Err(
                DeviceConfigError::InvalidOption(key),
            ) && unknown_option(self.options(), key@) && first_unknown(self.keys()) == Some(key@)),
            !(known_device(self.name_text()) && some_unknown_option(self.options()))
                ==> config_outcome(r) == plan_of(self.name_text(), self.options()),
    {
        let serial = same_text(self.name.as_str(), "serial");
        if !serial && !same_text(self.name.as_str(), "fb") && !same_text(
            self.name.as_str(),
            "framebuffer",
        ) {
            return Err(DeviceConfigError::InvalidDeviceName(String::from_str(self.name.as_str())));
        }
        match self.unknown() {
            Some(key) => {
                return Err(DeviceConfigError::InvalidOption(String::from_str(key.as_str())));
            },
            None => {},
        }
        let base_address = match self.base(
            if serial {
                0x3f8
            } else {
                0xf00_0000
            },
        ) {
            Ok(base) => base,
            Err(e) => { return Err(e); },
        };
        match self.lookup("backend") {
            Some(backend) => {
                if !same_text(
                    backend.as_str(),
                    if serial {
                        "pty"
                    } else {
                        "minifb"
                    },
                ) {
                    return Err(
                        DeviceConfigError::InvalidOption(String::from_str(backend.as_str())),
                    );
                }
            },
            None => {},
        }
        if serial {
            Ok(DevicePlan::Serial { base_address })
        } else {
            Ok(DevicePlan::Framebuffer { base_address })
        }
    }
}

/// An entry without `=` makes every longer list of entries an error.
proof fn unparseable_stays(entries: Seq<Seq<char>>, i: int)
    requires
        1 <= i <= entries.len(),
        options_of(entries.take(i)) == Err::<Map<Seq<char>, Seq<char>>, ConfigProblem>(
            ConfigProblem::UnparseableOption(entries[i - 1]),
        ),
    ensures
        options_of(entries) == Err::<Map<Seq<char>, Seq<char>>, ConfigProblem>(
            ConfigProblem::UnparseableOption(entries[i - 1]),
        ),
    decreases entries.len() - i,
{
    if i < entries.len() {
        assert(entries.take(i + 1).drop_last() =~= entries.take(i));
        unparseable_stays_step(entries, i);
    } else {
        assert(entries.take(i) =~= entries);
    }
}

proof fn unparseable_stays_step(entries: Seq<Seq<char>>, i: int)
    requires
        1 <= i < entries.len(),
        options_of(entries.take(i)) is Err,
    ensures
        options_of(entries) == options_of(entries.take(i)),
    decreases entries.len() - i,
{
    assert(entries.take(i + 1).drop_last() =~= entries.take(i));
    if i + 1 < entries.len() {
        unparseable_stays_step(entries, i + 1);
    } else {
        assert(entries.take(i + 1) =~= entries);
    }
}

/// A key that is given stays given when more pairs follow.
proof fn known_later(pairs: Seq<(String, String)>, i: int)
    requires
        0 <= i < pairs.len(),
    ensures
        map_of(pairs).contains_key(pairs[i].0@),
    decreases pairs.len(),
{
    if i < pairs.len() - 1 {
        known_later(pairs.drop_last(), i);
    }
}

} // verus!
