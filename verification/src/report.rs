//! The summary of a host, and the text that presents it.

use vstd::prelude::*;
use crate::artwork::{
    color_strip,
    distro_logo,
    get_color_strip,
    get_distro_logo,
    has_artwork,
    supports_artwork,
};
use crate::case::{capitalize, capitalized};
use crate::packages::entry_views;
use crate::scan;
use crate::text;

verus! {

/// How much of a store is in use, and how much it holds: both in GiB, as
/// they are to be shown.
#[derive(Clone, Debug, PartialEq, Eq)]
pub struct Amount {
    pub used: String,
    pub total: String,
}

/// The use of one mounted disk, as it is to be shown.
#[derive(Clone, Debug, PartialEq, Eq)]
pub struct Volume {
    pub mount_point: String,
    pub amount: Amount,
}

/// All that is shown of a host.
#[derive(Clone, Debug, PartialEq, Eq)]
pub struct Summary {
    pub user: String,
    pub hostname: String,
    pub os: String,
    pub kernel: String,
    pub architecture: String,
    pub cpu: String,
    pub cores: usize,
    pub gpu: String,
    pub memory: Amount,
    pub swap: Amount,
    pub uptime: String,
    pub resolution: String,
    pub desktop_environment: String,
    pub window_manager: String,
    pub window_manager_theme: String,
    pub gtk_theme: String,
    pub icon_theme: String,
    pub terminal: String,
    pub terminal_font: String,
    pub system_font: String,
    pub disks: Vec<Volume>,
    pub local_ip: String,
    pub battery: String,
    pub locale: String,
    pub packages: Vec<(String, u64)>,
}

/// An amount, as a value of specifications.
pub struct AmountView {
    pub used: Seq<char>,
    pub total: Seq<char>,
}

/// The use of a disk, as a value of specifications.
pub struct VolumeView {
    pub mount_point: Seq<char>,
    pub amount: AmountView,
}

/// A summary, as a value of specifications.
pub struct SummaryView {
    pub user: Seq<char>,
    pub hostname: Seq<char>,
    pub os: Seq<char>,
    pub kernel: Seq<char>,
    pub architecture: Seq<char>,
    pub cpu: Seq<char>,
    pub cores: nat,
    pub gpu: Seq<char>,
    pub memory: AmountView,
    pub swap: AmountView,
    pub uptime: Seq<char>,
    pub resolution: Seq<char>,
    pub desktop_environment: Seq<char>,
    pub window_manager: Seq<char>,
    pub window_manager_theme: Seq<char>,
    pub gtk_theme: Seq<char>,
    pub icon_theme: Seq<char>,
    pub terminal: Seq<char>,
    pub terminal_font: Seq<char>,
    pub system_font: Seq<char>,
    pub disks: Seq<VolumeView>,
    pub local_ip: Seq<char>,
    pub battery: Seq<char>,
    pub locale: Seq<char>,
    pub packages: Seq<(Seq<char>, u64)>,
}

impl View for Amount {
    type V = AmountView;

    open spec fn view(&self) -> AmountView {
        AmountView { used: self.used@, total: self.total@ }
    }
}

impl View for Volume {
    type V = VolumeView;

    open spec fn view(&self) -> VolumeView {
        VolumeView { mount_point: self.mount_point@, amount: self.amount@ }
    }
}

/// The volumes, each as a value of specifications.
pub open spec fn volume_views(volumes: Seq<Volume>) -> Seq<VolumeView> {
    volumes.map_values(|v: Volume| v@)
}

impl View for Summary {
    type V = SummaryView;

    open spec fn view(&self) -> SummaryView {
        SummaryView {
            user: self.user@,
            hostname: self.hostname@,
            os: self.os@,
            kernel: self.kernel@,
            architecture: self.architecture@,
            cpu: self.cpu@,
            cores: self.cores as nat,
            gpu: self.gpu@,
            memory: self.memory@,
            swap: self.swap@,
            uptime: self.uptime@,
            resolution: self.resolution@,
            desktop_environment: self.desktop_environment@,
            window_manager: self.window_manager@,
            window_manager_theme: self.window_manager_theme@,
            gtk_theme: self.gtk_theme@,
            icon_theme: self.icon_theme@,
            terminal: self.terminal@,
            terminal_font: self.terminal_font@,
            system_font: self.system_font@,
            disks: volume_views(self.disks@),
            local_ip: self.local_ip@,
            battery: self.battery@,
            locale: self.locale@,
            packages: entry_views(self.packages@),
        }
    }
}

/// One line of the report: a label, a value, and a line feed.
pub open spec fn line(label: Seq<char>, value: Seq<char>) -> Seq<char> {
    label + value + "\n"@
}

/// An amount, as it is shown: what is in use, then what there is.
pub open spec fn amount(a: AmountView) -> Seq<char> {
    a.used + "GiB / "@ + a.total + "GiB"@
}

/// Who is logged in, and where.
pub open spec fn identity(s: SummaryView) -> Seq<char> {
    s.user + "@"@ + s.hostname
}

/// The processor, with the number of its cores.
pub open spec fn processor(s: SummaryView) -> Seq<char> {
    s.cpu + " ("@ + text::decimal(s.cores) + " cores)"@
}

/// The eighteen lines with which both layouts begin.
pub open spec fn opening(s: SummaryView) -> Seq<char> {
    line("User: "@, identity(s)) + line("OS: "@, s.os) + line("Kernel: "@, s.kernel) + line(
        "Architecture: "@,
        s.architecture,
    ) + line("CPU: "@, processor(s)) + line("GPU: "@, s.gpu) + line("Memory: "@, amount(s.memory))
        + line("Swap: "@, amount(s.swap)) + line("Uptime: "@, s.uptime) + line(
        "Resolution: "@,
        s.resolution,
    ) + line("DE: "@, s.desktop_environment) + line("WM: "@, s.window_manager) + line(
        "WM Theme: "@,
        s.window_manager_theme,
    ) + line("Theme: "@, s.gtk_theme) + line("Icons: "@, s.icon_theme) + line(
        "Terminal: "@,
        s.terminal,
    ) + line("Terminal Font: "@, s.terminal_font) + line("System Font: "@, s.system_font)
}

/// The line of one disk.
pub open spec fn volume_line(v: VolumeView) -> Seq<char> {
    line("Disk ("@ + v.mount_point + "): "@, amount(v.amount))
}

/// The lines of the disks, in their order.
pub open spec fn volume_lines(volumes: Seq<VolumeView>) -> Seq<char>
    decreases volumes.len(),
{
    if volumes.len() == 0 {
        Seq::empty()
    } else {
        volume_lines(volumes.drop_last()) + volume_line(volumes.last())
    }
}

/// The three lines on the network, the battery and the locale.
pub open spec fn closing(s: SummaryView) -> Seq<char> {
    line("Local IP: "@, s.local_ip) + line("Battery: "@, s.battery) + line("Locale: "@, s.locale)
}

/// The line of one package manager, under the label given.
pub open spec fn count_line(label: Seq<char>, count: u64) -> Seq<char> {
    line(label + ": "@, text::decimal(count as nat) + " packages"@)
}

/// The lines of the package managers, in their order, each under its name
/// with the first character in upper case.
pub open spec fn package_lines(packages: Seq<(Seq<char>, u64)>) -> Seq<char>
    decreases packages.len(),
{
    if packages.len() == 0 {
        Seq::empty()
    } else {
        package_lines(packages.drop_last()) + count_line(
            capitalized(packages.last().0),
            packages.last().1,
        )
    }
}

/// The line of the strip of colours.
pub open spec fn strip_line() -> Seq<char> {
    color_strip() + "\n"@
}

/// The plain layout: the opening, the disks, the closing, the packages and
/// the strip.
pub open spec fn plain_report(s: SummaryView) -> Seq<char> {
    opening(s) + volume_lines(s.disks) + closing(s) + package_lines(s.packages) + strip_line()
}

/// The layout with artwork: the artwork of the distribution on lines of its
/// own; then the opening, the closing, the disks and the packages, and an
/// empty line; then the strip.
pub open spec fn artwork_report(s: SummaryView) -> Seq<char> {
    distro_logo(s.os) + "\n"@ + opening(s) + closing(s) + volume_lines(s.disks) + package_lines(
        s.packages,
    ) + "\n"@ + strip_line()
}

/// The report: with artwork where it is asked for and the distribution has
/// one, plain otherwise.
pub open spec fn report(s: SummaryView, experimental: bool) -> Seq<char> {
    if experimental && has_artwork(s.os) {
        artwork_report(s)
    } else {
        plain_report(s)
    }
}

/// A summary without disks and without packages has a report all the same:
/// the lines of the facts and the strip, in either layout.
pub proof fn lemma_report_without_lists(s: SummaryView)
    requires
        s.disks.len() == 0,
        s.packages.len() == 0,
    ensures
        plain_report(s) == opening(s) + closing(s) + strip_line(),
        artwork_report(s) == distro_logo(s.os) + "\n"@ + opening(s) + closing(s) + "\n"@
            + strip_line(),
{
    assert(opening(s) + volume_lines(s.disks) =~= opening(s));
    assert(closing(s) + package_lines(s.packages) =~= closing(s));
    assert(opening(s) + closing(s) + volume_lines(s.disks) + package_lines(s.packages)
        =~= opening(s) + closing(s));
}

/// One line of the report.
pub fn get_line(label: &str, value: &str) -> (r: String)
    ensures
        r@ == line(label@, value@),
{
    label.to_owned().concat(value).concat("\n")
}

/// An amount, as it is shown.
pub fn get_amount(a: &Amount) -> (r: String)
    ensures
        r@ == amount(a@),
{
    a.used.clone().concat("GiB / ").concat(a.total.as_str()).concat("GiB")
}

/// The line of one package manager, under the label given.
pub fn get_count_line(label: &str, count: u64) -> (r: String)
    ensures
        r@ == count_line(label@, count),
{
    let number = scan::string_of(scan::decimal(count).as_slice());
    let head = label.to_owned().concat(": ");
    let value = number.concat(" packages");
    get_line(head.as_str(), value.as_str())
}

/// Appends one line of the report.
fn push_line(out: &mut String, label: &str, value: &str)
    ensures
        final(out)@ == old(out)@ + line(label@, value@),
{
    let l = get_line(label, value);
    out.append(l.as_str());
}

/// The lines with which both layouts begin.
pub fn get_opening(s: &Summary) -> (r: String)
    ensures
        r@ == opening(s@),
{
    let identity = s.user.clone().concat("@").concat(s.hostname.as_str());
    let cores = scan::string_of(scan::decimal(s.cores as u64).as_slice());
    let processor = s.cpu.clone().concat(" (").concat(cores.as_str()).concat(" cores)");
    let memory = get_amount(&s.memory);
    let swap = get_amount(&s.swap);
    let mut out = get_line("User: ", identity.as_str());
    push_line(&mut out, "OS: ", s.os.as_str());
    push_line(&mut out, "Kernel: ", s.kernel.as_str());
    push_line(&mut out, "Architecture: ", s.architecture.as_str());
    push_line(&mut out, "CPU: ", processor.as_str());
    push_line(&mut out, "GPU: ", s.gpu.as_str());
    push_line(&mut out, "Memory: ", memory.as_str());
    push_line(&mut out, "Swap: ", swap.as_str());
    push_line(&mut out, "Uptime: ", s.uptime.as_str());
    push_line(&mut out, "Resolution: ", s.resolution.as_str());
    push_line(&mut out, "DE: ", s.desktop_environment.as_str());
    push_line(&mut out, "WM: ", s.window_manager.as_str());
    push_line(&mut out, "WM Theme: ", s.window_manager_theme.as_str());
    push_line(&mut out, "Theme: ", s.gtk_theme.as_str());
    push_line(&mut out, "Icons: ", s.icon_theme.as_str());
    push_line(&mut out, "Terminal: ", s.terminal.as_str());
    push_line(&mut out, "Terminal Font: ", s.terminal_font.as_str());
    push_line(&mut out, "System Font: ", s.system_font.as_str());
    out
}

/// The line of one disk.
pub fn get_volume_line(v: &Volume) -> (r: String)
    ensures
        r@ == volume_line(v@),
{
    let label = "Disk (".to_owned().concat(v.mount_point.as_str()).concat("): ");
    let value = get_amount(&v.amount);
    get_line(label.as_str(), value.as_str())
}

/// The lines of the disks, in their order.
pub fn get_volume_lines(volumes: &Vec<Volume>) -> (r: String)
    ensures
        r@ == volume_lines(volume_views(volumes@)),
{
    let mut out = String::new();
    let mut i: usize = 0;
    let ghost all = volume_views(volumes@);
    assert(all.take(0) =~= Seq::<VolumeView>::empty());
    while i < volumes.len()
        invariant
            i <= volumes.len(),
            all == volume_views(volumes@),
            out@ == volume_lines(all.take(i as int)),
        decreases volumes.len() - i,
    {
        assert(all.take(i + 1).drop_last() =~= all.take(i as int));
        assert(all.take(i + 1).last() == volumes@[i as int]@);
        let l = get_volume_line(&volumes[i]);
        out.append(l.as_str());
        i += 1;
    }
    assert(all.take(volumes.len() as int) =~= all);
    out
}

/// The three lines on the network, the battery and the locale.
pub fn get_closing(s: &Summary) -> (r: String)
    ensures
        r@ == closing(s@),
{
    let a = get_line("Local IP: ", s.local_ip.as_str());
    let b = get_line("Battery: ", s.battery.as_str());
    let c = get_line("Locale: ", s.locale.as_str());
    a.concat(b.as_str()).concat(c.as_str())
}

/// The lines of the package managers, in their order.
pub fn get_package_lines(packages: &Vec<(String, u64)>) -> (r: String)
    ensures
        r@ == package_lines(entry_views(packages@)),
{
    let mut out = String::new();
    let mut i: usize = 0;
    let ghost all = entry_views(packages@);
    assert(all.take(0) =~= Seq::<(Seq<char>, u64)>::empty());
    while i < packages.len()
        invariant
            i <= packages.len(),
            all == entry_views(packages@),
            out@ == package_lines(all.take(i as int)),
        decreases packages.len() - i,
    {
        assert(all.take(i + 1).drop_last() =~= all.take(i as int));
        assert(all.take(i + 1).last() == (packages@[i as int].0@, packages@[i as int].1));
        let label = capitalize(packages[i].0.as_str());
        let l = get_count_line(label.as_str(), packages[i].1);
        out.append(l.as_str());
        i += 1;
    }
    assert(all.take(packages.len() as int) =~= all);
    out
}

/// The line of the strip of colours.
pub fn get_strip_line() -> (r: String)
    ensures
        r@ == strip_line(),
{
    get_color_strip().concat("\n")
}

/// The report in the plain layout.
pub fn get_plain_report(s: &Summary) -> (r: String)
    ensures
        r@ == plain_report(s@),
{
    let opening = get_opening(s);
    let volumes = get_volume_lines(&s.disks);
    let closing = get_closing(s);
    let packages = get_package_lines(&s.packages);
    let strip = get_strip_line();
    opening.concat(volumes.as_str()).concat(closing.as_str()).concat(packages.as_str()).concat(
        strip.as_str(),
    )
}

/// The report in the layout with artwork.
pub fn get_artwork_report(s: &Summary) -> (r: String)
    ensures
        r@ == artwork_report(s@),
{
    let logo = get_distro_logo(s.os.as_str());
    let opening = get_opening(s);
    let closing = get_closing(s);
    let volumes = get_volume_lines(&s.disks);
    let packages = get_package_lines(&s.packages);
    let strip = get_strip_line();
    logo.concat("\n").concat(opening.as_str()).concat(closing.as_str()).concat(
        volumes.as_str(),
    ).concat(packages.as_str()).concat("\n").concat(strip.as_str())
}

/// The report: all that is written to the terminal.
pub fn get_report(s: &Summary, experimental: bool) -> (r: String)
    ensures
        r@ == report(s@, experimental),
{
    if experimental && supports_artwork(s.os.as_str()) {
        get_artwork_report(s)
    } else {
        get_plain_report(s)
    }
}

} // verus!
