//! Devices: lab instruments with a driver, configuration options and
//! groups of data channels.

use vstd::prelude::*;

use crate::config_option::{parsed_value, ConfigOption, OptionModel, OptionValue};
use crate::driver::{Driver, DriverModel};
use crate::text::{i32_to_text, signed_decimal, text_eq, texts};
use crate::types::{error_of_code, SrError};

verus! {

/// Channel types.
#[derive(Debug, Clone, Copy, PartialEq, Eq, Structural)]
pub enum ChannelType {
    /// Digital channel, a.k.a "logic" channel.
    Digital,
    /// Analog channel.
    Analog,
}

impl ChannelType {
    /// The name of the channel type.
    pub open spec fn name(self) -> Seq<char> {
        match self {
            ChannelType::Digital => "Digital"@,
            ChannelType::Analog => "Analog"@,
        }
    }

    /// Returns the name of the enum as a string.
    pub fn as_str(&self) -> (s: &'static str)
        ensures
            s@ == self.name(),
    {
        match self {
            ChannelType::Digital => "Digital",
            ChannelType::Analog => "Analog",
        }
    }

    /// The number libsigrok uses for the channel type.
    pub open spec fn spec_code(self) -> i32 {
        match self {
            ChannelType::Digital => 10000i32,
            ChannelType::Analog => 10001i32,
        }
    }

    /// Returns the number libsigrok uses for the channel type.
    pub fn code(&self) -> (c: i32)
        ensures
            c == self.spec_code(),
    {
        match self {
            ChannelType::Digital => 10000,
            ChannelType::Analog => 10001,
        }
    }
}

/// The channel type a libsigrok number stands for; numbers other than the
/// analog one stand for a digital channel.
pub open spec fn channel_type_of_code(value: i32) -> ChannelType {
    if value == 10001 {
        ChannelType::Analog
    } else {
        ChannelType::Digital
    }
}

impl From<i32> for ChannelType {
    fn from(value: i32) -> (t: ChannelType) {
        match value {
            10001 => ChannelType::Analog,
            _ => ChannelType::Digital,
        }
    }
}

impl vstd::std_specs::convert::FromSpecImpl<i32> for ChannelType {
    open spec fn obeys_from_spec() -> bool {
        true
    }

    open spec fn from_spec(v: i32) -> ChannelType {
        channel_type_of_code(v)
    }
}

/// Every channel type is given back by its own number.
pub proof fn lemma_channel_type_code_roundtrip(t: ChannelType)
    ensures
        channel_type_of_code(t.spec_code()) == t,
{
}

/// The mathematical content of a channel.
pub struct ChannelModel {
    pub handle: usize,
    pub name: Seq<char>,
    pub index: i32,
    pub enabled: bool,
    pub channel_type: ChannelType,
}

/// Hardware data channel.
///
/// A channel represents a reading stream, from where data is continuously
/// available.
#[derive(Debug)]
pub struct Channel {
    /// Handle of the channel structure inside libsigrok.
    handle: usize,
    /// Name of the channel. E.g. "D0", "D1", "A0", etc. It may be used to
    /// reference it.
    name: String,
    /// Index of the channel. It may be used to reference it.
    index: i32,
    /// Whether the channel is enabled, i.e., will read data when the session
    /// starts, or not.
    enabled: bool,
    /// Channel type, either digital or analog.
    channel_type: ChannelType,
}

impl View for Channel {
    type V = ChannelModel;

    closed spec fn view(&self) -> ChannelModel {
        ChannelModel {
            handle: self.handle,
            name: self.name@,
            index: self.index,
            enabled: self.enabled,
            channel_type: self.channel_type,
        }
    }
}

impl Channel {
    /// Builds a channel from what libsigrok reports of it: the handle of its
    /// structure, its name and index, its enabled flag (non-zero when
    /// enabled) and the number of its type.
    pub fn new(handle: usize, name: String, index: i32, enabled: i32, type_code: i32) -> (c:
        Channel)
        ensures
            c@ == (ChannelModel {
                handle,
                name: name@,
                index,
                enabled: enabled != 0,
                channel_type: channel_type_of_code(type_code),
            }),
    {
        Channel {
            handle,
            name,
            index,
            enabled: enabled != 0,
            channel_type: ChannelType::from(type_code),
        }
    }

    /// Returns the handle of the channel structure inside libsigrok.
    pub fn get_pointer(&self) -> (r: usize)
        ensures
            r == self@.handle,
    {
        self.handle
    }

    /// Returns the name of the channel.
    pub fn get_name(&self) -> (r: &String)
        ensures
            r@ == self@.name,
    {
        &self.name
    }

    /// Returns the index of the channel.
    pub fn get_index(&self) -> (r: i32)
        ensures
            r == self@.index,
    {
        self.index
    }

    /// Returns whether the channel is enabled.
    pub fn is_enabled(&self) -> (r: bool)
        ensures
            r == self@.enabled,
    {
        self.enabled
    }

    /// Returns the type of the channel.
    pub fn get_type(&self) -> (r: ChannelType)
        ensures
            r == self@.channel_type,
    {
        self.channel_type
    }

    /// Records whether the channel is enabled.
    pub fn set_enabled(&mut self, enabled: bool)
        ensures
            final(self)@ == (ChannelModel { enabled, ..old(self)@ }),
    {
        self.enabled = enabled;
    }

    /// Records a new name for the channel.
    pub fn set_name(&mut self, name: &str)
        ensures
            final(self)@ == (ChannelModel { name: name@, ..old(self)@ }),
    {
        self.name = String::from_str(name);
    }

    /// Whether the channel answers to `id`: its name, or its index written
    /// in base ten.
    pub fn matches(&self, id: &str) -> (r: bool)
        ensures
            r == channel_matches(self@, id@),
    {
        if text_eq(self.name.as_str(), id) {
            true
        } else {
            let index_text = i32_to_text(self.index);
            text_eq(index_text.as_str(), id)
        }
    }
}

/// Whether a channel answers to `id`: its name, or its index written in
/// base ten.
pub open spec fn channel_matches(c: ChannelModel, id: Seq<char>) -> bool {
    c.name == id || signed_decimal(c.index as int) == id
}

/// The first position, from `i` on, of a channel that answers to `id`.
pub open spec fn first_channel_from(channels: Seq<ChannelModel>, id: Seq<char>, i: int) -> Option<
    int,
>
    decreases channels.len() - i,
{
    if i < 0 || i >= channels.len() {
        None
    } else if channel_matches(channels[i], id) {
        Some(i)
    } else {
        first_channel_from(channels, id, i + 1)
    }
}

/// The mathematical content of a channel group.
#[verifier::ext_equal]
pub struct GroupModel {
    pub handle: usize,
    pub name: Seq<char>,
    pub channels: Seq<ChannelModel>,
    pub options: Seq<OptionModel>,
}

/// The contents of a list of channels.
pub open spec fn channel_models(v: Seq<Channel>) -> Seq<ChannelModel> {
    v.map_values(|c: Channel| c@)
}

/// The contents of a list of options.
pub open spec fn option_models(v: Seq<ConfigOption>) -> Seq<OptionModel> {
    v.map_values(|o: ConfigOption| o@)
}

/// A channel group holds an arbitrary amount of data channels from a
/// device, and the configuration options they share.
#[derive(Debug)]
pub struct ChannelGroup {
    /// Handle of the channel group structure inside libsigrok.
    handle: usize,
    /// Arbitrary name given to the channel group.
    name: String,
    /// Channels that form part of the given group.
    channels: Vec<Channel>,
    /// Configuration options that only apply to this group of channels, not
    /// the whole device. It may be empty.
    options: Vec<ConfigOption>,
}

impl View for ChannelGroup {
    type V = GroupModel;

    closed spec fn view(&self) -> GroupModel {
        GroupModel {
            handle: self.handle,
            name: self.name@,
            channels: channel_models(self.channels@),
            options: option_models(self.options@),
        }
    }
}

impl ChannelGroup {
    /// Builds a channel group from the handle of its libsigrok structure,
    /// its name, its channels and its options.
    pub fn new(handle: usize, name: String, channels: Vec<Channel>, options: Vec<ConfigOption>) -> (g:
        ChannelGroup)
        ensures
            g@ == (GroupModel {
                handle,
                name: name@,
                channels: channel_models(channels@),
                options: option_models(options@),
            }),
    {
        ChannelGroup { handle, name, channels, options }
    }

    /// Returns the handle of the channel group structure inside libsigrok.
    pub fn get_pointer(&self) -> (r: usize)
        ensures
            r == self@.handle,
    {
        self.handle
    }

    /// Returns the name of the channel group.
    pub fn get_name(&self) -> (r: &String)
        ensures
            r@ == self@.name,
    {
        &self.name
    }

    /// Returns the channels of the group.
    pub fn get_channels(&self) -> (r: &Vec<Channel>)
        ensures
            channel_models(r@) == self@.channels,
    {
        &self.channels
    }

    /// Returns the options of the group.
    pub fn get_options(&self) -> (r: &Vec<ConfigOption>)
        ensures
            option_models(r@) == self@.options,
    {
        &self.options
    }

    /// The position of the first channel of the group that answers to `id`.
    pub fn find_channel(&self, id: &str) -> (r: Option<usize>)
        ensures
            match first_channel_from(self@.channels, id@, 0) {
                Some(c) => r matches Some(ci) && ci == c && c < self@.channels.len(),
                None => r is None,
            },
    {
        let ghost chs = self@.channels;
        let mut i: usize = 0;
        while i < self.channels.len()
            invariant
                chs == self@.channels,
                chs.len() == self.channels@.len(),
                i <= chs.len(),
                first_channel_from(chs, id@, 0) == first_channel_from(chs, id@, i as int),
            decreases self.channels.len() - i,
        {
            assert(chs[i as int] == self.channels@[i as int]@);
            if self.channels[i].matches(id) {
                return Some(i);
            }
            i = i + 1;
        }
        None
    }
}


/// The first position, from `i` on, of an option whose identifier is `id`.
pub open spec fn first_option_from(options: Seq<OptionModel>, id: Seq<char>, i: int) -> Option<int>
    decreases options.len() - i,
{
    if i < 0 || i >= options.len() {
        None
    } else if options[i].id == id {
        Some(i)
    } else {
        first_option_from(options, id, i + 1)
    }
}

/// The first position, from `i` on, of a group whose name is `name`.
pub open spec fn first_group_from(groups: Seq<GroupModel>, name: Seq<char>, i: int) -> Option<int>
    decreases groups.len() - i,
{
    if i < 0 || i >= groups.len() {
        None
    } else if groups[i].name == name {
        Some(i)
    } else {
        first_group_from(groups, name, i + 1)
    }
}

/// The first channel, group by group and from group `g` on, that answers
/// to `id`: the group's position and the channel's position in it.
pub open spec fn channel_lookup_from(groups: Seq<GroupModel>, id: Seq<char>, g: int) -> Option<
    (int, int),
>
    decreases groups.len() - g,
{
    if g < 0 || g >= groups.len() {
        None
    } else {
        match first_channel_from(groups[g].channels, id, 0) {
            Some(c) => Some((g, c)),
            None => channel_lookup_from(groups, id, g + 1),
        }
    }
}

/// The number of spaces in a text.
pub open spec fn spaces(s: Seq<char>) -> nat
    decreases s.len(),
{
    if s.len() == 0 {
        0
    } else {
        spaces(s.drop_last()) + if s.last() == ' ' {
            1nat
        } else {
            0nat
        }
    }
}

/// The first position, from `i` on, of a space.
pub open spec fn first_space_from(s: Seq<char>, i: int) -> Option<int>
    decreases s.len() - i,
{
    if i < 0 || i >= s.len() {
        None
    } else if s[i] == ' ' {
        Some(i)
    } else {
        first_space_from(s, i + 1)
    }
}

/// How an option identifier splits at its spaces.
pub enum IdShape {
    /// No space: a bare option identifier.
    Single,
    /// One space: a group name, then an option identifier.
    Pair(Seq<char>, Seq<char>),
    /// Two spaces or more.
    Many,
}

/// How `id` splits at its spaces.
pub open spec fn id_shape(id: Seq<char>) -> IdShape {
    if spaces(id) == 0 {
        IdShape::Single
    } else if spaces(id) == 1 {
        let p = first_space_from(id, 0)->0;
        IdShape::Pair(id.take(p), id.skip(p + 1))
    } else {
        IdShape::Many
    }
}

/// Where an option stands in a device: among the device-wide options, or
/// among the options of a channel group.
pub enum OptionSlot {
    Device(int),
    Group(int, int),
}

/// The mathematical content of a device.
#[verifier::ext_equal]
pub struct DeviceModel {
    pub driver: DriverModel,
    pub handle: usize,
    pub vendor: Seq<char>,
    pub model: Seq<char>,
    pub version: Seq<char>,
    pub serial_number: Seq<char>,
    pub connection_id: Seq<char>,
    pub options: Seq<OptionModel>,
    pub groups: Seq<GroupModel>,
}

/// The first channel of the device, group by group, that answers to `id`.
pub open spec fn channel_lookup(d: DeviceModel, id: Seq<char>) -> Option<(int, int)> {
    channel_lookup_from(d.groups, id, 0)
}

/// Whether looking up the option `id` is defined: a bare identifier that
/// names no device-wide option is looked up in the first channel group,
/// which must then exist.
pub open spec fn option_lookup_defined(d: DeviceModel, id: Seq<char>) -> bool {
    !(first_option_from(d.options, id, 0) is None && id_shape(id) is Single && d.groups.len() == 0)
}

/// Where the option that `id` names stands, or why there is none. A
/// device-wide option with that identifier comes first; else a bare
/// identifier names an option of the first channel group, and
/// "<group name> <option id>" an option of the named group.
pub open spec fn option_lookup(d: DeviceModel, id: Seq<char>) -> Result<OptionSlot, SrError> {
    match first_option_from(d.options, id, 0) {
        Some(i) => Ok(OptionSlot::Device(i)),
        None => match id_shape(id) {
            IdShape::Single => match first_option_from(d.groups[0].options, id, 0) {
                Some(i) => Ok(OptionSlot::Group(0, i)),
                None => Err(SrError::SrOptionNotExist),
            },
            IdShape::Pair(group_name, option_id) => match first_group_from(d.groups, group_name, 0) {
                Some(g) => match first_option_from(d.groups[g].options, option_id, 0) {
                    Some(i) => Ok(OptionSlot::Group(g, i)),
                    None => Err(SrError::SrOptionNotExist),
                },
                None => Err(SrError::SrErrChannelGroup),
            },
            IdShape::Many => Err(SrError::SrOptionNotExist),
        },
    }
}

/// Whether a slot stands for an option of the device.
pub open spec fn slot_valid(d: DeviceModel, s: OptionSlot) -> bool {
    match s {
        OptionSlot::Device(i) => 0 <= i < d.options.len(),
        OptionSlot::Group(g, i) => 0 <= g < d.groups.len() && 0 <= i < d.groups[g].options.len(),
    }
}

/// The option at a slot.
pub open spec fn slot_option(d: DeviceModel, s: OptionSlot) -> OptionModel {
    match s {
        OptionSlot::Device(i) => d.options[i],
        OptionSlot::Group(g, i) => d.groups[g].options[i],
    }
}

/// The handle of the channel group that a slot lies in, if any.
pub open spec fn slot_group_handle(d: DeviceModel, s: OptionSlot) -> Option<usize> {
    match s {
        OptionSlot::Device(_) => None,
        OptionSlot::Group(g, _) => Some(d.groups[g].handle),
    }
}

/// The device with `value` as the current value of the option at a slot.
pub open spec fn with_slot_value(d: DeviceModel, s: OptionSlot, value: Seq<char>) -> DeviceModel {
    match s {
        OptionSlot::Device(i) => DeviceModel {
            options: d.options.update(i, OptionModel { value, ..d.options[i] }),
            ..d
        },
        OptionSlot::Group(g, i) => DeviceModel {
            groups: d.groups.update(
                g,
                GroupModel {
                    options: d.groups[g].options.update(
                        i,
                        OptionModel { value, ..d.groups[g].options[i] },
                    ),
                    ..d.groups[g]
                },
            ),
            ..d
        },
    }
}

/// The device with `c` in place of the channel at `(g, i)`.
pub open spec fn with_channel(d: DeviceModel, g: int, i: int, c: ChannelModel) -> DeviceModel {
    DeviceModel {
        groups: d.groups.update(
            g,
            GroupModel { channels: d.groups[g].channels.update(i, c), ..d.groups[g] },
        ),
        ..d
    }
}

/// Whether `value` is one of the device's descriptive strings or one of
/// its driver's names.
pub open spec fn device_found_by(d: DeviceModel, value: Seq<char>) -> bool {
    value.len() > 0 && (value == d.vendor || value == d.model || value == d.version || value
        == d.serial_number || value == d.connection_id || value == d.driver.name || value
        == d.driver.long_name)
}

/// Whether `value` is the device's vendor, model or serial number, or its
/// driver's name.
pub open spec fn device_named_by(d: DeviceModel, value: Seq<char>) -> bool {
    value == d.vendor || value == d.model || value == d.serial_number || value == d.driver.name
}

/// Where an option stands in a device.
#[derive(Debug, Clone, Copy, PartialEq, Eq, Structural)]
pub enum OptionLocation {
    /// Among the device-wide options, at a position.
    Device(usize),
    /// Among the options of a channel group: the group's position, then the
    /// option's.
    Group(usize, usize),
}

impl View for OptionLocation {
    type V = OptionSlot;

    open spec fn view(&self) -> OptionSlot {
        match self {
            OptionLocation::Device(i) => OptionSlot::Device(*i as int),
            OptionLocation::Group(g, i) => OptionSlot::Group(*g as int, *i as int),
        }
    }
}

/// What setting an option hands to libsigrok: where the option stands, its
/// key, the handle of its channel group (none for a device-wide option) and
/// the value read from the text.
#[derive(Debug)]
pub struct OptionRequest {
    pub location: OptionLocation,
    pub key: u32,
    pub group_handle: Option<usize>,
    pub value: OptionValue,
}

/// What opening a device answers for a libsigrok status code: success, and
/// also the generic error that a device already open gives, are fine;
/// any other code is the error it stands for.
pub fn open_status(status: i32) -> (r: Result<(), SrError>)
    ensures
        (status == 0 || status == -1) ==> r is Ok,
        !(status == 0 || status == -1) ==> r == Err::<(), SrError>(error_of_code(status)),
{
    let e = SrError::from(status);
    match e {
        SrError::SrOk | SrError::SrErr => Ok(()),
        _ => Err(e),
    }
}

/// The position of the first option in `options` whose identifier is `id`.
fn find_option(options: &Vec<ConfigOption>, id: &str) -> (r: Option<usize>)
    ensures
        match first_option_from(option_models(options@), id@, 0) {
            Some(i) => r matches Some(j) && j == i && i < options@.len(),
            None => r is None,
        },
{
    let ghost opts = option_models(options@);
    let mut i: usize = 0;
    while i < options.len()
        invariant
            opts == option_models(options@),
            opts.len() == options@.len(),
            i <= opts.len(),
            first_option_from(opts, id@, 0) == first_option_from(opts, id@, i as int),
        decreases options.len() - i,
    {
        assert(opts[i as int] == options@[i as int]@);
        if text_eq(options[i].get_id().as_str(), id) {
            return Some(i);
        }
        i = i + 1;
    }
    None
}

/// Counts the spaces of `id`, stopping at two, and finds the first one.
fn space_scan(id: &str) -> (r: (usize, usize))
    ensures
        (r.0 == 0) == (spaces(id@) == 0),
        (r.0 == 1) == (spaces(id@) == 1),
        r.0 >= 1 ==> first_space_from(id@, 0) == Some(r.1 as int) && r.1 < id@.len(),
{
    let n = id.unicode_len();
    let mut count: usize = 0;
    let mut first: usize = 0;
    let mut i: usize = 0;
    while i < n
        invariant
            n == id@.len(),
            i <= n,
            count <= i,
            count == spaces(id@.take(i as int)),
            count == 0 ==> first_space_from(id@, 0) == first_space_from(id@, i as int),
            count >= 1 ==> first_space_from(id@, 0) == Some(first as int) && first < n,
        decreases n - i,
    {
        assert(id@.take(i + 1).drop_last() =~= id@.take(i as int));
        if id.get_char(i) == ' ' {
            if count == 0 {
                first = i;
            }
            count = count + 1;
        }
        i = i + 1;
    }
    assert(id@.take(n as int) =~= id@);
    (count, first)
}

/// A device can be thought as any lab instrument capable of measuring
/// something. E.g.: Logic analyzers, oscilloscopes, multimeters,
/// thermometers, etc.
///
/// A device has a driver to communicate with it, configuration options,
/// and an arbitrary number of channel groups that hold the channels from
/// where data is read.
#[derive(Debug)]
pub struct Device {
    /// Driver used to handle the device.
    driver: Driver,
    /// Handle of the device instance inside libsigrok.
    handle: usize,
    /// Vendor string. May be empty.
    vendor: String,
    /// Model string. May be empty.
    model: String,
    /// Version string. May be empty.
    version: String,
    /// Serial number. May be empty.
    serial_number: String,
    /// Connection ID, as detected by the operating system. May be empty.
    connection_id: String,
    /// Device-wide configuration options.
    options: Vec<ConfigOption>,
    /// Channel groups; every channel is within a group.
    channel_groups: Vec<ChannelGroup>,
}

/// The contents of a list of channel groups.
pub open spec fn group_models(v: Seq<ChannelGroup>) -> Seq<GroupModel> {
    v.map_values(|g: ChannelGroup| g@)
}

impl View for Device {
    type V = DeviceModel;

    closed spec fn view(&self) -> DeviceModel {
        DeviceModel {
            driver: self.driver@,
            handle: self.handle,
            vendor: self.vendor@,
            model: self.model@,
            version: self.version@,
            serial_number: self.serial_number@,
            connection_id: self.connection_id@,
            options: option_models(self.options@),
            groups: group_models(self.channel_groups@),
        }
    }
}

impl Device {
    /// Builds a device from its driver, the handle of its libsigrok
    /// instance, its descriptive strings, its device-wide options and its
    /// channel groups.
    pub fn new(
        driver: Driver,
        handle: usize,
        vendor: String,
        model: String,
        version: String,
        serial_number: String,
        connection_id: String,
        options: Vec<ConfigOption>,
        channel_groups: Vec<ChannelGroup>,
    ) -> (d: Device)
        ensures
            d@ == (DeviceModel {
                driver: driver@,
                handle,
                vendor: vendor@,
                model: model@,
                version: version@,
                serial_number: serial_number@,
                connection_id: connection_id@,
                options: option_models(options@),
                groups: group_models(channel_groups@),
            }),
    {
        Device {
            driver,
            handle,
            vendor,
            model,
            version,
            serial_number,
            connection_id,
            options,
            channel_groups,
        }
    }

    /// Returns the vendor string.
    pub fn get_vendor(&self) -> (r: &String)
        ensures
            r@ == self@.vendor,
    {
        &self.vendor
    }

    /// Returns the model string.
    pub fn get_model(&self) -> (r: &String)
        ensures
            r@ == self@.model,
    {
        &self.model
    }

    /// Returns the version string.
    pub fn get_version(&self) -> (r: &String)
        ensures
            r@ == self@.version,
    {
        &self.version
    }

    /// Returns the serial string.
    pub fn get_serial_number(&self) -> (r: &String)
        ensures
            r@ == self@.serial_number,
    {
        &self.serial_number
    }

    /// Returns the connection ID string.
    pub fn get_connection_id(&self) -> (r: &String)
        ensures
            r@ == self@.connection_id,
    {
        &self.connection_id
    }

    /// Returns the handle of the device instance inside libsigrok.
    pub fn get_pointer(&self) -> (r: usize)
        ensures
            r == self@.handle,
    {
        self.handle
    }

    /// Returns the driver's name associated with the device.
    pub fn get_driver_name(&self) -> (r: &String)
        ensures
            r@ == self@.driver.name,
    {
        self.driver.get_name()
    }

    /// Returns the driver of the device.
    pub fn get_driver(&self) -> (r: &Driver)
        ensures
            r@ == self@.driver,
    {
        &self.driver
    }

    /// Returns the device-wide options.
    pub fn get_options(&self) -> (r: &Vec<ConfigOption>)
        ensures
            option_models(r@) == self@.options,
    {
        &self.options
    }

    /// Returns the channel groups.
    pub fn get_channel_groups(&self) -> (r: &Vec<ChannelGroup>)
        ensures
            group_models(r@) == self@.groups,
    {
        &self.channel_groups
    }

    /// Compares the given value with the device's vendor, model, version,
    /// serial number and connection ID, and also its driver's names.
    ///
    /// Returns `true` if any of them match; an empty value matches nothing.
    pub fn find(&self, value: &str) -> (r: bool)
        ensures
            r == device_found_by(self@, value@),
    {
        if value.unicode_len() == 0 {
            return false;
        }
        text_eq(value, self.vendor.as_str()) || text_eq(value, self.model.as_str()) || text_eq(
            value,
            self.version.as_str(),
        ) || text_eq(value, self.serial_number.as_str()) || text_eq(
            value,
            self.connection_id.as_str(),
        ) || text_eq(value, self.driver.get_name().as_str()) || text_eq(
            value,
            self.driver.get_long_name().as_str(),
        )
    }

    /// Whether `value` is the device's vendor, model or serial number, or
    /// its driver's name.
    pub fn is_named_by(&self, value: &str) -> (r: bool)
        ensures
            r == device_named_by(self@, value@),
    {
        text_eq(value, self.vendor.as_str()) || text_eq(value, self.model.as_str()) || text_eq(
            value,
            self.serial_number.as_str(),
        ) || text_eq(value, self.driver.get_name().as_str())
    }

    /// Returns where the channel whose name or index matches `id` stands:
    /// the first such channel, group by group.
    pub fn locate_channel(&self, id: &str) -> (r: Result<(usize, usize), SrError>)
        ensures
            match channel_lookup(self@, id@) {
                Some((g, c)) => r matches Ok((gi, ci)) && gi == g && ci == c && 0 <= g
                    < self@.groups.len() && 0 <= c < self@.groups[g].channels.len(),
                None => r == Err::<(usize, usize), SrError>(SrError::SrChannelNotFound),
            },
    {
        let ghost groups = self@.groups;
        let mut g: usize = 0;
        while g < self.channel_groups.len()
            invariant
                groups == self@.groups,
                groups == group_models(self.channel_groups@),
                groups.len() == self.channel_groups@.len(),
                g <= groups.len(),
                channel_lookup_from(groups, id@, 0) == channel_lookup_from(groups, id@, g as int),
            decreases self.channel_groups.len() - g,
        {
            assert(groups[g as int] == self.channel_groups@[g as int]@);
            match self.channel_groups[g].find_channel(id) {
                Some(c) => {
                    proof {
                        lemma_first_channel_in_range(groups[g as int].channels, id@, 0);
                    }
                    return Ok((g, c));
                },
                None => {},
            }
            g = g + 1;
        }
        Err(SrError::SrChannelNotFound)
    }

    /// Returns the device's channel whose name or index matches the argument
    /// `id`: the first such channel, group by group.
    pub fn get_channel(&self, id: &str) -> (r: Result<&Channel, SrError>)
        ensures
            match channel_lookup(self@, id@) {
                Some((g, c)) => r matches Ok(ch) && ch@ == self@.groups[g].channels[c],
                None => r == Err::<&Channel, SrError>(SrError::SrChannelNotFound),
            },
    {
        match self.locate_channel(id) {
            Ok((g, c)) => {
                let ghost found = channel_lookup(self@, id@);
                assert(found is Some);
                let ghost (fg, fc) = found->0;
                assert(fg == g && fc == c);
                assert(self@.groups[g as int] == self.channel_groups@[g as int]@);
                let group = &self.channel_groups[g];
                assert(group@.channels.len() == group.channels@.len());
                assert(group@.channels[c as int] == group.channels@[c as int]@);
                Ok(&group.channels[c])
            },
            Err(e) => Err(e),
        }
    }

    /// Returns a mutable reference to the device's channel whose name or
    /// index matches `id`: the first such channel, group by group.
    pub fn get_channel_mut(&mut self, id: &str) -> (r: Result<&mut Channel, SrError>)
        ensures
            match channel_lookup(old(self)@, id@) {
                Some((g, c)) => r matches Ok(ch) && ch@ == old(self)@.groups[g].channels[c]
                    && final(self)@ == with_channel(old(self)@, g, c, final(ch)@),
                None => r == Err::<&mut Channel, SrError>(SrError::SrChannelNotFound)
                    && final(self)@ == old(self)@,
            },
    {
        broadcast use {lemma_channel_models_update, lemma_group_models_update};

        match self.locate_channel(id) {
            Ok((g, c)) => Ok(&mut self.channel_groups[g].channels[c]),
            Err(e) => Err(e),
        }
    }

    /// Returns "true" if the channel whose name or index matches `id` is
    /// enabled.
    pub fn is_channel_enabled(&self, id: &str) -> (r: Result<bool, SrError>)
        ensures
            match channel_lookup(self@, id@) {
                Some((g, c)) => r == Ok::<bool, SrError>(self@.groups[g].channels[c].enabled),
                None => r == Err::<bool, SrError>(SrError::SrChannelNotFound),
            },
    {
        let channel = self.get_channel(id)?;
        Ok(channel.is_enabled())
    }
}

/// A channel found from position `i` on lies in the list.
pub proof fn lemma_first_channel_in_range(channels: Seq<ChannelModel>, id: Seq<char>, i: int)
    ensures
        first_channel_from(channels, id, i) matches Some(c) ==> i <= c < channels.len()
            && channel_matches(channels[c], id),
    decreases channels.len() - i,
{
    if 0 <= i < channels.len() && !channel_matches(channels[i], id) {
        lemma_first_channel_in_range(channels, id, i + 1);
    }
}


impl Device {
    /// Returns where the option named by `id` stands; see `option_lookup`
    /// for how `id` is read.
    pub fn locate_option(&self, id: &str) -> (r: Result<OptionLocation, SrError>)
        requires
            option_lookup_defined(self@, id@),
        ensures
            match option_lookup(self@, id@) {
                Ok(s) => r matches Ok(l) && l@ == s && slot_valid(self@, s),
                Err(e) => r == Err::<OptionLocation, SrError>(e),
            },
    {
        assert(self@.options == option_models(self.options@));
        match find_option(&self.options, id) {
            Some(i) => {
                return Ok(OptionLocation::Device(i));
            },
            None => {},
        }
        let (count, p) = space_scan(id);
        if count == 0 {
            assert(self@.groups[0] == self.channel_groups@[0]@);
            match find_option(&self.channel_groups[0].options, id) {
                Some(i) => Ok(OptionLocation::Group(0, i)),
                None => Err(SrError::SrOptionNotExist),
            }
        } else if count == 1 {
            let n = id.unicode_len();
            let group_name = id.substring_char(0, p);
            let option_id = id.substring_char(p + 1, n);
            assert(group_name@ == id@.take(p as int));
            assert(option_id@ =~= id@.skip(p + 1));
            match self.find_group(group_name) {
                Some(g) => {
                    assert(self@.groups[g as int] == self.channel_groups@[g as int]@);
                    match find_option(&self.channel_groups[g].options, option_id) {
                        Some(i) => Ok(OptionLocation::Group(g, i)),
                        None => Err(SrError::SrOptionNotExist),
                    }
                },
                None => Err(SrError::SrErrChannelGroup),
            }
        } else {
            Err(SrError::SrOptionNotExist)
        }
    }

    /// Whether looking up the option `id` is defined (see
    /// `option_lookup_defined`): false only for a bare identifier that names
    /// no device-wide option on a device without channel groups.
    pub fn can_look_up_option(&self, id: &str) -> (r: bool)
        ensures
            r == option_lookup_defined(self@, id@),
    {
        assert(self@.options == option_models(self.options@));
        if find_option(&self.options, id).is_some() {
            return true;
        }
        let (count, _) = space_scan(id);
        count != 0 || self.channel_groups.len() > 0
    }

    /// The position of the first channel group whose name is `name`.
    fn find_group(&self, name: &str) -> (r: Option<usize>)
        ensures
            match first_group_from(self@.groups, name@, 0) {
                Some(g) => r matches Some(gi) && gi == g && g < self@.groups.len(),
                None => r is None,
            },
    {
        let ghost groups = self@.groups;
        let mut i: usize = 0;
        while i < self.channel_groups.len()
            invariant
                groups == self@.groups,
                groups == group_models(self.channel_groups@),
                groups.len() == self.channel_groups@.len(),
                i <= groups.len(),
                first_group_from(groups, name@, 0) == first_group_from(groups, name@, i as int),
            decreases self.channel_groups.len() - i,
        {
            assert(groups[i as int] == self.channel_groups@[i as int]@);
            if text_eq(self.channel_groups[i].get_name().as_str(), name) {
                return Some(i);
            }
            i = i + 1;
        }
        None
    }

    /// The option at a location.
    pub fn option_at(&self, location: OptionLocation) -> (r: &ConfigOption)
        requires
            slot_valid(self@, location@),
        ensures
            r@ == slot_option(self@, location@),
    {
        match location {
            OptionLocation::Device(i) => {
                assert(self@.options[i as int] == self.options@[i as int]@);
                &self.options[i]
            },
            OptionLocation::Group(g, i) => {
                assert(self@.groups[g as int] == self.channel_groups@[g as int]@);
                let group = &self.channel_groups[g];
                assert(group@.options[i as int] == group.options@[i as int]@);
                &group.options[i]
            },
        }
    }

    /// Returns the current value of the given option `id`.
    ///
    /// * `id`: If the string `"<option_id>"` is given, this function assumes
    /// that it is a device option, or else an option of the first channel
    /// group. Options of any channel group can be reached by passing a two
    /// word string formed by the channel group name and the option's id:
    /// `"<channel_group_name> <option_id>"`.
    ///
    /// The returned value is always a String; it is the user's
    /// responsibility to parse it to the correct data type.
    pub fn get_option(&self, id: &str) -> (r: Result<&String, SrError>)
        requires
            option_lookup_defined(self@, id@),
        ensures
            match option_lookup(self@, id@) {
                Ok(s) => r matches Ok(v) && v@ == slot_option(self@, s).value,
                Err(e) => r == Err::<&String, SrError>(e),
            },
    {
        let location = self.locate_option(id)?;
        Ok(self.option_at(location).get_value())
    }

    /// The identifier by which the option `id` of the channel group
    /// `channel_group_name` is reached: the two joined by a space.
    pub fn channel_option_id(channel_group_name: &str, id: &str) -> (r: String)
        ensures
            r@ == channel_group_name@ + seq![' '] + id@,
    {
        let mut r = String::from_str(channel_group_name);
        crate::text::push_char(&mut r, ' ');
        r.append(id);
        r
    }

    /// Returns the current value of the option `id` of the channel group
    /// `channel_group_name`.
    pub fn get_channel_option(&self, channel_group_name: &str, id: &str) -> (r: Result<
        &String,
        SrError,
    >)
        requires
            option_lookup_defined(self@, channel_group_name@ + seq![' '] + id@),
        ensures
            match option_lookup(self@, channel_group_name@ + seq![' '] + id@) {
                Ok(s) => r matches Ok(v) && v@ == slot_option(self@, s).value,
                Err(e) => r == Err::<&String, SrError>(e),
            },
    {
        let full_id = Device::channel_option_id(channel_group_name, id);
        self.get_option(full_id.as_str())
    }

    /// Prepares setting the option `id` (read as `get_option` reads it) to
    /// `value`: finds the option and reads `value` as a value of its data
    /// type. What it returns is what libsigrok is to be handed.
    pub fn prepare_option(&self, id: &str, value: &str) -> (r: Result<OptionRequest, SrError>)
        requires
            option_lookup_defined(self@, id@),
            option_lookup(self@, id@) matches Ok(s) ==> slot_option(
                self@,
                s,
            ).data_type.is_settable(),
        ensures
            match option_lookup(self@, id@) {
                Ok(s) => match parsed_value(slot_option(self@, s).data_type, value@) {
                    Ok(v) => r matches Ok(q) && q.location@ == s && slot_valid(self@, s) && q.key == slot_option(
                        self@,
                        s,
                    ).key && q.group_handle == slot_group_handle(self@, s) && q.value@ == v,
                    Err(e) => r == Err::<OptionRequest, SrError>(e),
                },
                Err(e) => r == Err::<OptionRequest, SrError>(e),
            },
    {
        let location = self.locate_option(id)?;
        let option = self.option_at(location);
        let parsed = option.parse_value(value)?;
        let group_handle = match location {
            OptionLocation::Device(_) => None,
            OptionLocation::Group(g, _) => {
                assert(self@.groups[g as int] == self.channel_groups@[g as int]@);
                Some(self.channel_groups[g].get_pointer())
            },
        };
        Ok(OptionRequest { location, key: option.key(), group_handle, value: parsed })
    }

    /// Records `value` as the current value of the option at `location`,
    /// once libsigrok has accepted it.
    pub fn record_option(&mut self, location: OptionLocation, value: &str)
        requires
            slot_valid(old(self)@, location@),
        ensures
            final(self)@ == with_slot_value(old(self)@, location@, value@),
    {
        match location {
            OptionLocation::Device(i) => {
                let ghost before = self.options@;
                assert(old(self)@.options[i as int] == before[i as int]@);
                self.options[i].set_value(value);
                assert(option_models(self.options@) =~= option_models(before).update(
                    i as int,
                    self.options@[i as int]@,
                ));
            },
            OptionLocation::Group(g, i) => {
                let ghost groups_before = self.channel_groups@;
                let ghost opts_before = self.channel_groups@[g as int].options@;
                assert(old(self)@.groups[g as int] == groups_before[g as int]@);
                assert(old(self)@.groups[g as int].options[i as int] == opts_before[i as int]@);
                self.channel_groups[g].options[i].set_value(value);
                let ghost new_group = self.channel_groups@[g as int];
                assert(option_models(new_group.options@) =~= option_models(opts_before).update(
                    i as int,
                    new_group.options@[i as int]@,
                ));
                assert(group_models(self.channel_groups@) =~= group_models(groups_before).update(
                    g as int,
                    new_group@,
                ));
            },
        }
    }

    /// Records whether the channel at position `channel` of group `group` is
    /// enabled, once libsigrok has accepted it.
    pub fn record_channel_enabled(&mut self, group: usize, channel: usize, enabled: bool)
        requires
            group < old(self)@.groups.len(),
            channel < old(self)@.groups[group as int].channels.len(),
        ensures
            final(self)@ == with_channel(
                old(self)@,
                group as int,
                channel as int,
                ChannelModel { enabled, ..old(self)@.groups[group as int].channels[channel as int] },
            ),
    {
        let ghost groups_before = self.channel_groups@;
        let ghost chans_before = self.channel_groups@[group as int].channels@;
        assert(old(self)@.groups[group as int] == groups_before[group as int]@);
        assert(old(self)@.groups[group as int].channels[channel as int]
            == chans_before[channel as int]@);
        self.channel_groups[group].channels[channel].set_enabled(enabled);
        let ghost new_group = self.channel_groups@[group as int];
        assert(channel_models(new_group.channels@) =~= channel_models(chans_before).update(
            channel as int,
            new_group.channels@[channel as int]@,
        ));
        assert(group_models(self.channel_groups@) =~= group_models(groups_before).update(
            group as int,
            new_group@,
        ));
    }

    /// Records a new name for the channel at position `channel` of group
    /// `group`, once libsigrok has accepted it.
    pub fn record_channel_name(&mut self, group: usize, channel: usize, name: &str)
        requires
            group < old(self)@.groups.len(),
            channel < old(self)@.groups[group as int].channels.len(),
        ensures
            final(self)@ == with_channel(
                old(self)@,
                group as int,
                channel as int,
                ChannelModel {
                    name: name@,
                    ..old(self)@.groups[group as int].channels[channel as int]
                },
            ),
    {
        let ghost groups_before = self.channel_groups@;
        let ghost chans_before = self.channel_groups@[group as int].channels@;
        assert(old(self)@.groups[group as int] == groups_before[group as int]@);
        assert(old(self)@.groups[group as int].channels[channel as int]
            == chans_before[channel as int]@);
        self.channel_groups[group].channels[channel].set_name(name);
        let ghost new_group = self.channel_groups@[group as int];
        assert(channel_models(new_group.channels@) =~= channel_models(chans_before).update(
            channel as int,
            new_group.channels@[channel as int]@,
        ));
        assert(group_models(self.channel_groups@) =~= group_models(groups_before).update(
            group as int,
            new_group@,
        ));
    }
}


/// The contents of a list of devices.
pub open spec fn device_models(v: Seq<Device>) -> Seq<DeviceModel> {
    v.map_values(|d: Device| d@)
}

/// The first position, from `i` on, of a device named by `value` (its
/// vendor, model, serial number or driver name).
pub open spec fn first_named_from(devices: Seq<DeviceModel>, value: Seq<char>, i: int) -> Option<
    int,
>
    decreases devices.len() - i,
{
    if i < 0 || i >= devices.len() {
        None
    } else if device_named_by(devices[i], value) {
        Some(i)
    } else {
        first_named_from(devices, value, i + 1)
    }
}

/// The first position, from `i` on, of a device that `find` reports for
/// `value`.
pub open spec fn first_found_from(devices: Seq<DeviceModel>, value: Seq<char>, i: int) -> Option<
    int,
>
    decreases devices.len() - i,
{
    if i < 0 || i >= devices.len() {
        None
    } else if device_found_by(devices[i], value) {
        Some(i)
    } else {
        first_found_from(devices, value, i + 1)
    }
}

impl Device {
    /// Picks, among scanned devices, the first one whose vendor, model,
    /// serial number or driver name is `value`.
    pub fn select_by_name(devices: Vec<Device>, value: &str) -> (r: Result<Device, SrError>)
        ensures
            match first_named_from(device_models(devices@), value@, 0) {
                Some(i) => r matches Ok(d) && d@ == devices@[i]@,
                None => r == Err::<Device, SrError>(SrError::SrDeviceNotFound),
            },
    {
        let ghost orig = devices@;
        let mut list = devices;
        let ghost ds = device_models(orig);
        let mut i: usize = 0;
        #[verifier::loop_isolation(false)]
        while i < list.len()
            invariant
                list@ == orig,
                ds == device_models(orig),
                ds.len() == orig.len(),
                i <= ds.len(),
                first_named_from(ds, value@, 0) == first_named_from(ds, value@, i as int),
            decreases list.len() - i,
        {
            assert(ds[i as int] == orig[i as int]@);
            if list[i].is_named_by(value) {
                assert(first_named_from(ds, value@, i as int) == Some(i as int));
                let d = list.swap_remove(i);
                assert(d == orig[i as int]);
                return Ok(d);
            }
            i = i + 1;
        }
        Err(SrError::SrDeviceNotFound)
    }

    /// Picks, among scanned devices, the first one that `find` reports for
    /// `value`.
    pub fn select_found(devices: Vec<Device>, value: &str) -> (r: Result<Device, SrError>)
        ensures
            match first_found_from(device_models(devices@), value@, 0) {
                Some(i) => r matches Ok(d) && d@ == devices@[i]@,
                None => r == Err::<Device, SrError>(SrError::SrDeviceNotFound),
            },
    {
        let ghost orig = devices@;
        let mut list = devices;
        let ghost ds = device_models(orig);
        let mut i: usize = 0;
        #[verifier::loop_isolation(false)]
        while i < list.len()
            invariant
                list@ == orig,
                ds == device_models(orig),
                ds.len() == orig.len(),
                i <= ds.len(),
                first_found_from(ds, value@, 0) == first_found_from(ds, value@, i as int),
            decreases list.len() - i,
        {
            assert(ds[i as int] == orig[i as int]@);
            if list[i].find(value) {
                assert(first_found_from(ds, value@, i as int) == Some(i as int));
                let d = list.swap_remove(i);
                assert(d == orig[i as int]);
                return Ok(d);
            }
            i = i + 1;
        }
        Err(SrError::SrDeviceNotFound)
    }

    /// The driver names of the devices, in order.
    pub fn driver_names(devices: &Vec<Device>) -> (r: Vec<String>)
        ensures
            texts(r@) == device_models(devices@).map_values(|d: DeviceModel| d.driver.name),
    {
        let ghost ds = device_models(devices@);
        let mut names: Vec<String> = Vec::new();
        let mut i: usize = 0;
        while i < devices.len()
            invariant
                ds == device_models(devices@),
                ds.len() == devices@.len(),
                i <= ds.len(),
                names@.len() == i,
                forall|k: int| 0 <= k < i ==> (#[trigger] names@[k])@ == ds[k].driver.name,
            decreases devices.len() - i,
        {
            assert(ds[i as int] == devices@[i as int]@);
            let name = devices[i].get_driver_name().clone();
            names.push(name);
            i = i + 1;
        }
        assert(texts(names@) =~= ds.map_values(|d: DeviceModel| d.driver.name));
        names
    }
}

/// A position found from `i` on holds an option whose identifier is `id`.
pub proof fn lemma_first_option_in_range(options: Seq<OptionModel>, id: Seq<char>, i: int)
    ensures
        first_option_from(options, id, i) matches Some(k) ==> i <= k < options.len()
            && options[k].id == id,
    decreases options.len() - i,
{
    if 0 <= i < options.len() && options[i].id != id {
        lemma_first_option_in_range(options, id, i + 1);
    }
}

/// A position found from `i` on holds a group whose name is `name`.
pub proof fn lemma_first_group_in_range(groups: Seq<GroupModel>, name: Seq<char>, i: int)
    ensures
        first_group_from(groups, name, i) matches Some(k) ==> i <= k < groups.len()
            && groups[k].name == name,
    decreases groups.len() - i,
{
    if 0 <= i < groups.len() && groups[i].name != name {
        lemma_first_group_in_range(groups, name, i + 1);
    }
}

/// Lists of options with the same identifiers give the same first position
/// for any identifier.
pub proof fn lemma_first_option_same_ids(
    a: Seq<OptionModel>,
    b: Seq<OptionModel>,
    id: Seq<char>,
    i: int,
)
    requires
        a.len() == b.len(),
        forall|k: int| 0 <= k < a.len() ==> #[trigger] a[k].id == b[k].id,
    ensures
        first_option_from(a, id, i) == first_option_from(b, id, i),
    decreases a.len() - i,
{
    if 0 <= i < a.len() {
        lemma_first_option_same_ids(a, b, id, i + 1);
    }
}

/// Lists of groups with the same names give the same first position for
/// any name.
pub proof fn lemma_first_group_same_names(
    a: Seq<GroupModel>,
    b: Seq<GroupModel>,
    name: Seq<char>,
    i: int,
)
    requires
        a.len() == b.len(),
        forall|k: int| 0 <= k < a.len() ==> #[trigger] a[k].name == b[k].name,
    ensures
        first_group_from(a, name, i) == first_group_from(b, name, i),
    decreases a.len() - i,
{
    if 0 <= i < a.len() {
        lemma_first_group_same_names(a, b, name, i + 1);
    }
}

/// An option that `id` names stands at a slot of the device.
pub proof fn lemma_option_lookup_valid(d: DeviceModel, id: Seq<char>)
    requires
        option_lookup_defined(d, id),
    ensures
        option_lookup(d, id) matches Ok(s) ==> slot_valid(d, s) && slot_option(d, s).id == match id_shape(id) {
            IdShape::Pair(_, option_id) => if first_option_from(d.options, id, 0) is Some { id } else { option_id },
            _ => id,
        },
{
    lemma_first_option_in_range(d.options, id, 0);
    if d.groups.len() > 0 {
        lemma_first_option_in_range(d.groups[0].options, id, 0);
    }
    match id_shape(id) {
        IdShape::Pair(group_name, option_id) => {
            lemma_first_group_in_range(d.groups, group_name, 0);
            match first_group_from(d.groups, group_name, 0) {
                Some(g) => {
                    lemma_first_option_in_range(d.groups[g].options, option_id, 0);
                },
                None => {},
            }
        },
        _ => {},
    }
}

/// After a value is recorded for the option that `id` names, `id` still
/// names that option, and reading it gives the recorded value.
pub proof fn lemma_set_option_then_get(d: DeviceModel, id: Seq<char>, value: Seq<char>)
    requires
        option_lookup_defined(d, id),
    ensures
        option_lookup(d, id) matches Ok(s) ==> {
            let d2 = with_slot_value(d, s, value);
            &&& option_lookup_defined(d2, id)
            &&& option_lookup(d2, id) == option_lookup(d, id)
            &&& slot_valid(d2, s)
            &&& slot_option(d2, s).value == value
        },
{
    lemma_option_lookup_valid(d, id);
    match option_lookup(d, id) {
        Ok(s) => {
            let d2 = with_slot_value(d, s, value);
            assert(d2.groups.len() == d.groups.len());
            assert forall|k: int| 0 <= k < d.groups.len() implies #[trigger] d2.groups[k].name
                == d.groups[k].name by {}
            lemma_first_option_same_ids(d2.options, d.options, id, 0);
            if d.groups.len() > 0 {
                lemma_first_option_same_ids(d2.groups[0].options, d.groups[0].options, id, 0);
            }
            match id_shape(id) {
                IdShape::Pair(group_name, option_id) => {
                    lemma_first_group_same_names(d2.groups, d.groups, group_name, 0);
                    lemma_first_group_in_range(d.groups, group_name, 0);
                    match first_group_from(d.groups, group_name, 0) {
                        Some(g) => {
                            lemma_first_option_same_ids(
                                d2.groups[g].options,
                                d.groups[g].options,
                                option_id,
                                0,
                            );
                        },
                        None => {},
                    }
                },
                _ => {},
            }
        },
        Err(_) => {},
    }
}

/// Channels that answer to `id` at the same positions give the same first
/// position.
pub proof fn lemma_first_channel_same_matches(
    a: Seq<ChannelModel>,
    b: Seq<ChannelModel>,
    id: Seq<char>,
    i: int,
)
    requires
        a.len() == b.len(),
        forall|k: int| 0 <= k < a.len() ==> channel_matches(#[trigger] a[k], id) == channel_matches(b[k], id),
    ensures
        first_channel_from(a, id, i) == first_channel_from(b, id, i),
    decreases a.len() - i,
{
    if 0 <= i < a.len() {
        lemma_first_channel_same_matches(a, b, id, i + 1);
    }
}

/// A channel found from group `g` on lies in the device.
pub proof fn lemma_channel_lookup_in_range(groups: Seq<GroupModel>, id: Seq<char>, g: int)
    ensures
        channel_lookup_from(groups, id, g) matches Some((h, c)) ==> g <= h < groups.len() && 0
            <= c < groups[h].channels.len() && channel_matches(groups[h].channels[c], id),
    decreases groups.len() - g,
{
    if 0 <= g < groups.len() {
        lemma_first_channel_in_range(groups[g].channels, id, 0);
        lemma_channel_lookup_in_range(groups, id, g + 1);
    }
}

/// Enabling or disabling the channel that `id` names leaves `id` naming the
/// same channel, which then has the new state.
pub proof fn lemma_enable_channel_then_query(d: DeviceModel, id: Seq<char>, enabled: bool)
    ensures
        channel_lookup(d, id) matches Some((g, c)) ==> {
            let d2 = with_channel(d, g, c, ChannelModel { enabled, ..d.groups[g].channels[c] });
            &&& channel_lookup(d2, id) == Some((g, c))
            &&& d2.groups[g].channels[c].enabled == enabled
        },
{
    lemma_channel_lookup_in_range(d.groups, id, 0);
    match channel_lookup(d, id) {
        Some((g, c)) => {
            let d2 = with_channel(d, g, c, ChannelModel { enabled, ..d.groups[g].channels[c] });
            lemma_lookup_same_matches(d2.groups, d.groups, id, 0);
        },
        None => {},
    }
}

/// Devices whose channels answer to `id` at the same positions give the
/// same first channel.
pub proof fn lemma_lookup_same_matches(a: Seq<GroupModel>, b: Seq<GroupModel>, id: Seq<char>, g: int)
    requires
        a.len() == b.len(),
        forall|k: int| 0 <= k < a.len() ==> (#[trigger] a[k]).channels.len() == b[k].channels.len(),
        forall|k: int, j: int|
            0 <= k < a.len() && 0 <= j < a[k].channels.len() ==> channel_matches(
                #[trigger] a[k].channels[j],
                id,
            ) == channel_matches(b[k].channels[j], id),
    ensures
        channel_lookup_from(a, id, g) == channel_lookup_from(b, id, g),
    decreases a.len() - g,
{
    if 0 <= g < a.len() {
        assert forall|j: int| 0 <= j < a[g].channels.len() implies channel_matches(
            #[trigger] a[g].channels[j],
            id,
        ) == channel_matches(b[g].channels[j], id) by {}
        lemma_first_channel_same_matches(a[g].channels, b[g].channels, id, 0);
        lemma_lookup_same_matches(a, b, id, g + 1);
    }
}

/// A channel that answers to `id` at position `c` or later makes the
/// search from `i` find one.
pub proof fn lemma_first_channel_found(channels: Seq<ChannelModel>, id: Seq<char>, i: int, c: int)
    requires
        0 <= i <= c < channels.len(),
        channel_matches(channels[c], id),
    ensures
        first_channel_from(channels, id, i) is Some,
    decreases c - i,
{
    if !channel_matches(channels[i], id) {
        lemma_first_channel_found(channels, id, i + 1, c);
    }
}

/// A channel that answers to `id` in group `h` or later makes the search
/// from group `g` find one.
pub proof fn lemma_channel_lookup_found(
    groups: Seq<GroupModel>,
    id: Seq<char>,
    g: int,
    h: int,
    c: int,
)
    requires
        0 <= g <= h < groups.len(),
        0 <= c < groups[h].channels.len(),
        channel_matches(groups[h].channels[c], id),
    ensures
        channel_lookup_from(groups, id, g) is Some,
    decreases h - g,
{
    if g == h {
        lemma_first_channel_found(groups[h].channels, id, 0, c);
    } else if first_channel_from(groups[g].channels, id, 0) is None {
        lemma_channel_lookup_found(groups, id, g + 1, h, c);
    }
}

/// After a channel is renamed, its new name names a channel of the device.
pub proof fn lemma_renamed_channel_found(d: DeviceModel, g: int, c: int, name: Seq<char>)
    requires
        0 <= g < d.groups.len(),
        0 <= c < d.groups[g].channels.len(),
    ensures
        channel_lookup(
            with_channel(d, g, c, ChannelModel { name, ..d.groups[g].channels[c] }),
            name,
        ) is Some,
{
    let d2 = with_channel(d, g, c, ChannelModel { name, ..d.groups[g].channels[c] });
    assert(d2.groups[g].channels[c].name == name);
    lemma_channel_lookup_found(d2.groups, name, 0, g, c);
}


/// Replacing a channel in a list replaces its content in the list's
/// contents.
pub broadcast proof fn lemma_channel_models_update(s: Seq<Channel>, i: int, x: Channel)
    requires
        0 <= i < s.len(),
    ensures
        #[trigger] channel_models(s.update(i, x)) == channel_models(s).update(i, x@),
{
    assert(channel_models(s.update(i, x)) =~= channel_models(s).update(i, x@));
}

/// Replacing a group in a list replaces its content in the list's
/// contents.
pub broadcast proof fn lemma_group_models_update(s: Seq<ChannelGroup>, i: int, x: ChannelGroup)
    requires
        0 <= i < s.len(),
    ensures
        #[trigger] group_models(s.update(i, x)) == group_models(s).update(i, x@),
{
    assert(group_models(s.update(i, x)) =~= group_models(s).update(i, x@));
}


/// Recording a value for the option that `id` names leaves every other
/// option where it was, with the value it had.
pub proof fn lemma_set_option_keeps_others(
    d: DeviceModel,
    id: Seq<char>,
    other: Seq<char>,
    value: Seq<char>,
)
    requires
        option_lookup_defined(d, id),
        option_lookup_defined(d, other),
    ensures
        option_lookup(d, id) matches Ok(s) ==> option_lookup(d, other) matches Ok(t) ==> s != t
            ==> {
            let d2 = with_slot_value(d, s, value);
            &&& option_lookup(d2, other) == Ok::<OptionSlot, SrError>(t)
            &&& slot_option(d2, t).value == slot_option(d, t).value
        },
{
    lemma_set_option_then_get(d, other, value);
    lemma_option_lookup_valid(d, id);
    lemma_option_lookup_valid(d, other);
    match option_lookup(d, id) {
        Ok(s) => {
            let d2 = with_slot_value(d, s, value);
            assert(d2.groups.len() == d.groups.len());
            assert forall|k: int| 0 <= k < d.groups.len() implies #[trigger] d2.groups[k].name
                == d.groups[k].name by {}
            lemma_first_option_same_ids(d2.options, d.options, other, 0);
            if d.groups.len() > 0 {
                lemma_first_option_same_ids(d2.groups[0].options, d.groups[0].options, other, 0);
            }
            match id_shape(other) {
                IdShape::Pair(group_name, option_id) => {
                    lemma_first_group_same_names(d2.groups, d.groups, group_name, 0);
                    lemma_first_group_in_range(d.groups, group_name, 0);
                    match first_group_from(d.groups, group_name, 0) {
                        Some(g) => {
                            lemma_first_option_same_ids(
                                d2.groups[g].options,
                                d.groups[g].options,
                                option_id,
                                0,
                            );
                        },
                        None => {},
                    }
                },
                _ => {},
            }
        },
        Err(_) => {},
    }
}

/// Changing the channel at `(g, c)` leaves every other channel as it was.
pub proof fn lemma_channel_change_keeps_others(
    d: DeviceModel,
    g: int,
    c: int,
    ch: ChannelModel,
    h: int,
    k: int,
)
    requires
        0 <= g < d.groups.len(),
        0 <= c < d.groups[g].channels.len(),
        0 <= h < d.groups.len(),
        0 <= k < d.groups[h].channels.len(),
        (h, k) != (g, c),
    ensures
        with_channel(d, g, c, ch).groups[h].channels[k] == d.groups[h].channels[k],
        with_channel(d, g, c, ch).groups[h].options == d.groups[h].options,
        with_channel(d, g, c, ch).options == d.options,
{
}


/// Every channel of a device is found by the base-ten text of its index and
/// by its name, and whatever channel a lookup finds has that name or that
/// index.
pub proof fn lemma_channel_found_by_index_or_name(d: DeviceModel, g: int, c: int, id: Seq<char>)
    requires
        0 <= g < d.groups.len(),
        0 <= c < d.groups[g].channels.len(),
    ensures
        channel_lookup(d, signed_decimal(d.groups[g].channels[c].index as int)) is Some,
        channel_lookup(d, d.groups[g].channels[c].name) is Some,
        channel_lookup(d, id) matches Some((h, k)) ==> 0 <= h < d.groups.len() && 0 <= k
            < d.groups[h].channels.len() && (d.groups[h].channels[k].name == id
            || signed_decimal(d.groups[h].channels[k].index as int) == id),
        (d.groups[g].channels[c].name == id || signed_decimal(d.groups[g].channels[c].index as int)
            == id) ==> (channel_lookup(d, id) matches Some((h, k)) && (h < g || (h == g && k
            <= c))),
{
    lemma_channel_lookup_found(d.groups, signed_decimal(d.groups[g].channels[c].index as int), 0, g, c);
    lemma_channel_lookup_found(d.groups, d.groups[g].channels[c].name, 0, g, c);
    lemma_channel_lookup_in_range(d.groups, id, 0);
    if d.groups[g].channels[c].name == id || signed_decimal(d.groups[g].channels[c].index as int)
        == id {
        lemma_channel_lookup_first(d.groups, id, 0, g, c);
    }
}

/// A channel that answers to `id` at `(g, c)` makes the search from group
/// `h0` stop at or before it.
proof fn lemma_channel_lookup_first(groups: Seq<GroupModel>, id: Seq<char>, h0: int, g: int, c: int)
    requires
        0 <= h0 <= g < groups.len(),
        0 <= c < groups[g].channels.len(),
        channel_matches(groups[g].channels[c], id),
    ensures
        channel_lookup_from(groups, id, h0) matches Some((h, k)) && (h < g || (h == g && k <= c)),
    decreases g - h0,
{
    if h0 == g {
        lemma_first_channel_found(groups[g].channels, id, 0, c);
        lemma_first_channel_at_most(groups[g].channels, id, 0, c);
        lemma_first_channel_in_range(groups[g].channels, id, 0);
    } else {
        lemma_first_channel_in_range(groups[h0].channels, id, 0);
        if first_channel_from(groups[h0].channels, id, 0) is None {
            lemma_channel_lookup_first(groups, id, h0 + 1, g, c);
        }
    }
}

/// The first channel from `i` that answers to `id` comes no later than any
/// channel that answers to it.
proof fn lemma_first_channel_at_most(channels: Seq<ChannelModel>, id: Seq<char>, i: int, c: int)
    requires
        0 <= i <= c < channels.len(),
        channel_matches(channels[c], id),
    ensures
        first_channel_from(channels, id, i) matches Some(k) && k <= c,
    decreases c - i,
{
    if !channel_matches(channels[i], id) {
        lemma_first_channel_at_most(channels, id, i + 1, c);
    }
}

/// Every device is named by its vendor, model, serial number and driver
/// name, and by nothing else.
pub proof fn lemma_device_named_by_its_strings(d: DeviceModel, value: Seq<char>)
    ensures
        device_named_by(d, d.vendor),
        device_named_by(d, d.model),
        device_named_by(d, d.serial_number),
        device_named_by(d, d.driver.name),
        device_named_by(d, value) ==> value == d.vendor || value == d.model || value
            == d.serial_number || value == d.driver.name,
{
}

/// Selecting by name among scanned devices gives the first device whose
/// vendor, model, serial number or driver name is the value: if device
/// `i` has one of them, a device at or before `i` is chosen, and the
/// chosen device has one of them.
pub proof fn lemma_select_by_name_finds(devices: Seq<DeviceModel>, value: Seq<char>, i: int)
    requires
        0 <= i < devices.len(),
        value == devices[i].vendor || value == devices[i].model || value
            == devices[i].serial_number || value == devices[i].driver.name,
    ensures
        first_named_from(devices, value, 0) matches Some(j) && j <= i && (value == devices[j].vendor
            || value == devices[j].model || value == devices[j].serial_number || value
            == devices[j].driver.name),
{
    lemma_first_named_at_most(devices, value, 0, i);
}

proof fn lemma_first_named_at_most(devices: Seq<DeviceModel>, value: Seq<char>, j: int, i: int)
    requires
        0 <= j <= i < devices.len(),
        value == devices[i].vendor || value == devices[i].model || value
            == devices[i].serial_number || value == devices[i].driver.name,
    ensures
        first_named_from(devices, value, j) matches Some(k) && j <= k <= i && (value
            == devices[k].vendor || value == devices[k].model || value == devices[k].serial_number
            || value == devices[k].driver.name),
    decreases i - j,
{
    if !device_named_by(devices[j], value) {
        lemma_first_named_at_most(devices, value, j + 1, i);
    }
}

/// A device is found by each of its non-empty strings and driver names,
/// and selecting by `find` chooses a device at or before any such device.
pub proof fn lemma_select_found_finds(devices: Seq<DeviceModel>, value: Seq<char>, i: int)
    requires
        0 <= i < devices.len(),
        value.len() > 0,
        value == devices[i].vendor || value == devices[i].model || value == devices[i].version
            || value == devices[i].serial_number || value == devices[i].connection_id || value
            == devices[i].driver.name || value == devices[i].driver.long_name,
    ensures
        first_found_from(devices, value, 0) matches Some(j) && j <= i,
{
    lemma_first_found_at_most(devices, value, 0, i);
}

proof fn lemma_first_found_at_most(devices: Seq<DeviceModel>, value: Seq<char>, j: int, i: int)
    requires
        0 <= j <= i < devices.len(),
        value.len() > 0,
        value == devices[i].vendor || value == devices[i].model || value == devices[i].version
            || value == devices[i].serial_number || value == devices[i].connection_id || value
            == devices[i].driver.name || value == devices[i].driver.long_name,
    ensures
        first_found_from(devices, value, j) matches Some(k) && j <= k <= i,
    decreases i - j,
{
    if !device_found_by(devices[j], value) {
        lemma_first_found_at_most(devices, value, j + 1, i);
    }
}

} // verus!
