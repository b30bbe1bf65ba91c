//! The text that describes a device: its strings, driver, options and
//! channel groups, laid out as a table.

use vstd::prelude::*;

use crate::config_option::{ConfigOption, OptionModel};
use crate::device::{
    channel_models, option_models, Channel, ChannelGroup, ChannelModel, Device, DeviceModel,
    GroupModel,
};
use crate::text::{bool_to_text, i32_to_text, push_char, signed_decimal};

verus! {

/// A run of `n` spaces.
pub open spec fn blanks(n: nat) -> Seq<char> {
    Seq::new(n, |i: int| ' ')
}

/// `s` centred in a field of `width` characters, as the `{:^width}` format
/// does: the padding is split in two, the left half rounded down; text at
/// least as wide as the field is left as it is.
pub open spec fn centered(s: Seq<char>, width: nat) -> Seq<char> {
    if s.len() >= width {
        s
    } else {
        let pad = (width - s.len()) as nat;
        blanks(pad / 2) + s + blanks((pad - pad / 2) as nat)
    }
}

/// The line that shows one of the device's strings, or nothing when the
/// string is empty.
pub open spec fn info_line(label: Seq<char>, value: Seq<char>) -> Seq<char> {
    if value.len() == 0 {
        Seq::empty()
    } else {
        "  * "@ + label + ": \""@ + value + "\"\n"@
    }
}

/// One line per option: its identifier and its current value.
pub open spec fn option_lines(options: Seq<OptionModel>) -> Seq<char>
    decreases options.len(),
{
    if options.len() == 0 {
        Seq::empty()
    } else {
        option_lines(options.drop_last()) + "    - "@ + options.last().id + ": \""@
            + options.last().value + "\"\n"@
    }
}

/// A titled list of options, followed by an empty line; nothing when there
/// are no options.
pub open spec fn options_section(options: Seq<OptionModel>, title: Seq<char>) -> Seq<char> {
    if options.len() == 0 {
        Seq::empty()
    } else {
        title + option_lines(options) + "\n"@
    }
}

/// A row of the channel table: four cells, centred in fields of 10, 5, 7
/// and 7 characters.
pub open spec fn table_row(a: Seq<char>, b: Seq<char>, c: Seq<char>, d: Seq<char>) -> Seq<char> {
    "    | "@ + centered(a, 10) + " | "@ + centered(b, 5) + " | "@ + centered(c, 7) + " | "@
        + centered(d, 7) + " |\n"@
}

/// The text of a truth value.
pub open spec fn bool_text(b: bool) -> Seq<char> {
    if b {
        "true"@
    } else {
        "false"@
    }
}

/// One table row per channel: its name, index, enabled state and type.
pub open spec fn channel_rows(channels: Seq<ChannelModel>) -> Seq<char>
    decreases channels.len(),
{
    if channels.len() == 0 {
        Seq::empty()
    } else {
        let c = channels.last();
        channel_rows(channels.drop_last()) + table_row(
            c.name,
            signed_decimal(c.index as int),
            bool_text(c.enabled),
            c.channel_type.name(),
        )
    }
}

/// The text of a channel group: its name, its table of channels and its
/// options.
pub open spec fn group_text(g: GroupModel) -> Seq<char> {
    "  * Channel group: \""@ + g.name + "\"\n"@ + table_row(
        "Name"@,
        "Index"@,
        "Enabled"@,
        "Type"@,
    ) + channel_rows(g.channels) + options_section(g.options, "    Channel group options:\n"@)
}

/// The texts of the channel groups, one after the other.
pub open spec fn groups_text(groups: Seq<GroupModel>) -> Seq<char>
    decreases groups.len(),
{
    if groups.len() == 0 {
        Seq::empty()
    } else {
        groups_text(groups.drop_last()) + group_text(groups.last())
    }
}

/// The text that describes a device.
pub open spec fn device_text(d: DeviceModel) -> Seq<char> {
    "Device info:\n"@ + info_line("Vendor"@, d.vendor) + info_line("Model"@, d.model) + info_line(
        "Version"@,
        d.version,
    ) + info_line("Serial number"@, d.serial_number) + info_line(
        "Connection ID"@,
        d.connection_id,
    ) + "  * Driver: \""@ + d.driver.name + "\"\n"@ + options_section(
        d.options,
        "  * Device options:\n"@,
    ) + groups_text(d.groups)
}

/// Appends `n` spaces.
fn push_blanks(s: &mut String, n: usize)
    ensures
        final(s)@ == old(s)@ + blanks(n as nat),
{
    let ghost base = s@;
    let mut i: usize = 0;
    while i < n
        invariant
            i <= n,
            s@ == base + blanks(i as nat),
        decreases n - i,
    {
        push_char(s, ' ');
        assert(blanks((i + 1) as nat) =~= blanks(i as nat).push(' '));
        i = i + 1;
    }
}

/// Appends `text` centred in a field of `width` characters.
fn push_centered(s: &mut String, text: &str, width: usize)
    ensures
        final(s)@ == old(s)@ + centered(text@, width as nat),
{
    let ghost base = s@;
    let n = text.unicode_len();
    if n >= width {
        s.append(text);
    } else {
        let pad = width - n;
        push_blanks(s, pad / 2);
        s.append(text);
        push_blanks(s, pad - pad / 2);
        assert(s@ =~= base + centered(text@, width as nat));
    }
}

/// Appends a row of the channel table.
fn push_row(s: &mut String, a: &str, b: &str, c: &str, d: &str)
    ensures
        final(s)@ == old(s)@ + table_row(a@, b@, c@, d@),
{
    let ghost base = s@;
    s.append("    | ");
    push_centered(s, a, 10);
    s.append(" | ");
    push_centered(s, b, 5);
    s.append(" | ");
    push_centered(s, c, 7);
    s.append(" | ");
    push_centered(s, d, 7);
    s.append(" |\n");
    assert(s@ =~= base + table_row(a@, b@, c@, d@));
}

/// Appends the line of one of the device's strings.
fn push_info(s: &mut String, label: &str, value: &String)
    ensures
        final(s)@ == old(s)@ + info_line(label@, value@),
{
    let ghost base = s@;
    if value.as_str().unicode_len() > 0 {
        s.append("  * ");
        s.append(label);
        s.append(": \"");
        s.append(value.as_str());
        s.append("\"\n");
        assert(s@ =~= base + info_line(label@, value@));
    } else {
        assert(s@ =~= base + info_line(label@, value@));
    }
}

/// Appends a titled list of options.
fn push_options(s: &mut String, options: &Vec<ConfigOption>, title: &str)
    ensures
        final(s)@ == old(s)@ + options_section(option_models(options@), title@),
{
    let ghost base = s@;
    let ghost opts = option_models(options@);
    if options.len() == 0 {
        assert(s@ =~= base + options_section(opts, title@));
        return;
    }
    s.append(title);
    let mut i: usize = 0;
    while i < options.len()
        invariant
            i <= options@.len(),
            opts == option_models(options@),
            opts.len() == options@.len(),
            s@ == base + title@ + option_lines(opts.take(i as int)),
        decreases options.len() - i,
    {
        let option = &options[i];
        assert(opts[i as int] == option@);
        s.append("    - ");
        s.append(option.get_id().as_str());
        s.append(": \"");
        s.append(option.get_value().as_str());
        s.append("\"\n");
        assert(opts.take(i + 1).drop_last() =~= opts.take(i as int));
        assert(s@ =~= base + title@ + option_lines(opts.take(i + 1)));
        i = i + 1;
    }
    assert(opts.take(options.len() as int) =~= opts);
    s.append("\n");
    assert(s@ =~= base + options_section(opts, title@));
}

/// Appends the text of a channel group.
fn push_group(s: &mut String, group: &ChannelGroup)
    ensures
        final(s)@ == old(s)@ + group_text(group@),
{
    let ghost base = s@;
    s.append("  * Channel group: \"");
    s.append(group.get_name().as_str());
    s.append("\"\n");
    push_row(s, "Name", "Index", "Enabled", "Type");
    let ghost head = s@;
    let channels = group.get_channels();
    let ghost chs = channel_models(channels@);
    let mut i: usize = 0;
    while i < channels.len()
        invariant
            i <= channels@.len(),
            chs == channel_models(channels@),
            chs.len() == channels@.len(),
            s@ == head + channel_rows(chs.take(i as int)),
        decreases channels.len() - i,
    {
        let channel: &Channel = &channels[i];
        assert(chs[i as int] == channel@);
        let index_text = i32_to_text(channel.get_index());
        let enabled_text = bool_to_text(channel.is_enabled());
        push_row(
            s,
            channel.get_name().as_str(),
            index_text.as_str(),
            enabled_text.as_str(),
            channel.get_type().as_str(),
        );
        assert(chs.take(i + 1).drop_last() =~= chs.take(i as int));
        i = i + 1;
    }
    assert(chs.take(channels.len() as int) =~= chs);
    push_options(s, group.get_options(), "    Channel group options:\n");
    assert(s@ =~= base + group_text(group@));
}

/// The line that shows one option: its identifier and its current value,
/// quoted.
pub open spec fn option_line(o: OptionModel) -> Seq<char> {
    "    - "@ + o.id + ": \""@ + o.value + "\"\n"@
}

/// The option lines are one line per option, in the order of the options.
pub proof fn lemma_option_lines_one_per_option(options: Seq<OptionModel>)
    ensures
        option_lines(options) == options.map_values(|o: OptionModel| option_line(o)).flatten(),
    decreases options.len(),
{
    let lines = options.map_values(|o: OptionModel| option_line(o));
    lines.lemma_flatten_and_flatten_alt_are_equivalent();
    if options.len() > 0 {
        lemma_option_lines_one_per_option(options.drop_last());
        assert(options.drop_last().map_values(|o: OptionModel| option_line(o)) =~= lines.drop_last());
        lines.drop_last().lemma_flatten_and_flatten_alt_are_equivalent();
        assert(option_lines(options) =~= lines.flatten_alt());
    } else {
        assert(lines.flatten_alt() =~= Seq::<char>::empty());
    }
}

/// The text of a run of channel groups put one after another is the text
/// of the first run followed by that of the second.
proof fn lemma_groups_text_concat(a: Seq<GroupModel>, b: Seq<GroupModel>)
    ensures
        groups_text(a + b) == groups_text(a) + groups_text(b),
    decreases b.len(),
{
    if b.len() == 0 {
        assert(a + b =~= a);
        assert(groups_text(a) + groups_text(b) =~= groups_text(a));
    } else {
        lemma_groups_text_concat(a, b.drop_last());
        assert((a + b).drop_last() =~= a + b.drop_last());
        assert((a + b).last() == b.last());
        assert(groups_text(a + b) =~= groups_text(a) + groups_text(b));
    }
}

/// Every channel group that has options shows them in the description of
/// the device: the title "Channel group options:", then one line per
/// option with its identifier and its quoted value, then an empty line.
pub proof fn lemma_description_lists_group_options(d: DeviceModel, gi: int)
    requires
        0 <= gi < d.groups.len(),
        d.groups[gi].options.len() > 0,
    ensures
        ({
            let lines = d.groups[gi].options.map_values(|o: OptionModel| option_line(o));
            let section = "    Channel group options:\n"@ + lines.flatten() + "\n"@;
            exists|before: Seq<char>, after: Seq<char>|
                device_text(d) == #[trigger] (before + section + after)
        }),
{
    let gs = d.groups;
    let g = gs[gi];
    let section = "    Channel group options:\n"@ + g.options.map_values(
        |o: OptionModel| option_line(o),
    ).flatten() + "\n"@;
    lemma_option_lines_one_per_option(g.options);
    assert(options_section(g.options, "    Channel group options:\n"@) == section);
    let head = "  * Channel group: \""@ + g.name + "\"\n"@ + table_row(
        "Name"@,
        "Index"@,
        "Enabled"@,
        "Type"@,
    ) + channel_rows(g.channels);
    assert(group_text(g) == head + section);
    let one = seq![g];
    assert(one.drop_last() =~= Seq::<GroupModel>::empty());
    assert(one.last() == g);
    assert(groups_text(one.drop_last()) =~= Seq::<char>::empty());
    assert(groups_text(one) =~= group_text(g));
    assert(gs =~= gs.take(gi) + one + gs.skip(gi + 1));
    lemma_groups_text_concat(gs.take(gi) + one, gs.skip(gi + 1));
    lemma_groups_text_concat(gs.take(gi), one);
    let prefix = "Device info:\n"@ + info_line("Vendor"@, d.vendor) + info_line("Model"@, d.model)
        + info_line("Version"@, d.version) + info_line("Serial number"@, d.serial_number)
        + info_line("Connection ID"@, d.connection_id) + "  * Driver: \""@ + d.driver.name
        + "\"\n"@ + options_section(d.options, "  * Device options:\n"@);
    assert(device_text(d) == prefix + groups_text(gs));
    let before = prefix + groups_text(gs.take(gi)) + head;
    let after = groups_text(gs.skip(gi + 1));
    assert(device_text(d) =~= before + section + after);
}

impl Device {
    /// Returns the text that describes the device: its non-empty strings,
    /// its driver, its options and, per channel group, a table of the
    /// group's channels and the group's options.
    pub fn describe(&self) -> (s: String)
        ensures
            s@ == device_text(self@),
    {
        let mut s = String::new();
        s.append("Device info:\n");
        push_info(&mut s, "Vendor", self.get_vendor());
        push_info(&mut s, "Model", self.get_model());
        push_info(&mut s, "Version", self.get_version());
        push_info(&mut s, "Serial number", self.get_serial_number());
        push_info(&mut s, "Connection ID", self.get_connection_id());
        s.append("  * Driver: \"");
        s.append(self.get_driver_name().as_str());
        s.append("\"\n");
        push_options(&mut s, self.get_options(), "  * Device options:\n");
        let ghost head = s@;
        let groups = self.get_channel_groups();
        let ghost gs = self@.groups;
        assert(gs.len() == groups@.len());
        assert forall|k: int| 0 <= k < gs.len() implies #[trigger] gs[k] == groups@[k]@ by {}
        let mut i: usize = 0;
        while i < groups.len()
            invariant
                i <= groups@.len(),
                gs.len() == groups@.len(),
                forall|k: int| 0 <= k < gs.len() ==> #[trigger] gs[k] == groups@[k]@,
                s@ == head + groups_text(gs.take(i as int)),
            decreases groups.len() - i,
        {
            push_group(&mut s, &groups[i]);
            assert(gs.take(i + 1).drop_last() =~= gs.take(i as int));
            i = i + 1;
        }
        assert(gs.take(groups.len() as int) =~= gs);
        assert(s@ =~= device_text(self@));
        s
    }
}

} // verus!
