//! The use of the disks.

use vstd::prelude::*;
use crate::scan;
use crate::text;

verus! {

/// A mounted disk, as the host reports it.
#[derive(Clone, Debug, PartialEq, Eq)]
pub struct Disk {
    /// Where the disk is mounted.
    pub mount_point: String,
    /// Its size in bytes.
    pub total: u64,
    /// The bytes of it that are free.
    pub available: u64,
}

/// The use of a mounted disk.
#[derive(Clone, Debug, PartialEq, Eq)]
pub struct DiskUsage {
    /// Where the disk is mounted.
    pub mount_point: String,
    /// Its size in bytes.
    pub total: u64,
    /// The bytes of it that are in use.
    pub used: u64,
}

/// A mounted disk, as a value of specifications.
pub struct DiskView {
    pub mount_point: Seq<char>,
    pub total: nat,
    pub available: nat,
}

/// The use of a mounted disk, as a value of specifications.
pub struct DiskUsageView {
    pub mount_point: Seq<char>,
    pub total: nat,
    pub used: nat,
}

impl View for Disk {
    type V = DiskView;

    open spec fn view(&self) -> DiskView {
        DiskView {
            mount_point: self.mount_point@,
            total: self.total as nat,
            available: self.available as nat,
        }
    }
}

impl View for DiskUsage {
    type V = DiskUsageView;

    open spec fn view(&self) -> DiskUsageView {
        DiskUsageView {
            mount_point: self.mount_point@,
            total: self.total as nat,
            used: self.used as nat,
        }
    }
}

/// The disks of `disks`, each as a value of specifications.
pub open spec fn disk_views(disks: Seq<Disk>) -> Seq<DiskView> {
    disks.map_values(|d: Disk| d@)
}

/// The uses of `uses`, each as a value of specifications.
pub open spec fn usage_views(uses: Seq<DiskUsage>) -> Seq<DiskUsageView> {
    uses.map_values(|u: DiskUsage| u@)
}

/// Whether the disk is one whose use is reported: one that is not mounted
/// under "/snap".
pub open spec fn is_reported(disk: DiskView) -> bool {
    !text::starts_with(disk.mount_point, "/snap"@)
}

/// Whether no more of the disk is free than it holds.
pub open spec fn is_sound(disk: DiskView) -> bool {
    disk.available <= disk.total
}

/// The use of `disk`: of its size, what is not free.
pub open spec fn usage_of(disk: DiskView) -> DiskUsageView {
    DiskUsageView {
        mount_point: disk.mount_point,
        total: disk.total,
        used: (disk.total - disk.available) as nat,
    }
}

/// The uses of the disks of `disks` that are reported, in their order.
pub open spec fn disk_usage(disks: Seq<DiskView>) -> Seq<DiskUsageView>
    decreases disks.len(),
{
    if disks.len() == 0 {
        Seq::empty()
    } else if is_reported(disks.last()) {
        disk_usage(disks.drop_last()).push(usage_of(disks.last()))
    } else {
        disk_usage(disks.drop_last())
    }
}

/// Whether the use of every disk of `disks` that is reported can be told.
pub open spec fn all_sound(disks: Seq<DiskView>) -> bool {
    forall|i: int| 0 <= i < disks.len() && is_reported(#[trigger] disks[i]) ==> is_sound(disks[i])
}

/// Whether the disk is one whose use is reported.
pub fn is_reported_disk(disk: &Disk) -> (b: bool)
    ensures
        b == is_reported(disk@),
{
    let mount = scan::chars_of(disk.mount_point.as_str());
    let snap = scan::chars_of("/snap");
    !scan::starts_with(mount.as_slice(), snap.as_slice())
}

/// Whether the use of every disk of `disks` that is reported can be told.
pub fn are_sound(disks: &Vec<Disk>) -> (b: bool)
    ensures
        b == all_sound(disk_views(disks@)),
{
    let mut i: usize = 0;
    while i < disks.len()
        invariant
            i <= disks.len(),
            forall|j: int|
                0 <= j < i && is_reported(#[trigger] disk_views(disks@)[j]) ==> is_sound(
                    disk_views(disks@)[j],
                ),
        decreases disks.len() - i,
    {
        assert(disk_views(disks@)[i as int] == disks@[i as int]@);
        if is_reported_disk(&disks[i]) && disks[i].available > disks[i].total {
            return false;
        }
        i += 1;
    }
    true
}

/// The use of the disks that are reported, in their order.
pub fn get_disk_usage_info(disks: &Vec<Disk>) -> (r: Vec<DiskUsage>)
    requires
        all_sound(disk_views(disks@)),
    ensures
        usage_views(r@) == disk_usage(disk_views(disks@)),
{
    let mut out: Vec<DiskUsage> = Vec::new();
    let mut i: usize = 0;
    assert(disk_views(disks@).take(0) =~= Seq::<DiskView>::empty());
    assert(usage_views(out@) =~= Seq::<DiskUsageView>::empty());
    while i < disks.len()
        invariant
            i <= disks.len(),
            all_sound(disk_views(disks@)),
            usage_views(out@) == disk_usage(disk_views(disks@).take(i as int)),
        decreases disks.len() - i,
    {
        let ghost all = disk_views(disks@);
        let ghost before = usage_views(out@);
        assert(all[i as int] == disks@[i as int]@);
        assert(all.take(i + 1).drop_last() =~= all.take(i as int));
        assert(all.take(i + 1).last() == all[i as int]);
        let disk = &disks[i];
        if is_reported_disk(disk) {
            let usage = DiskUsage {
                mount_point: disk.mount_point.clone(),
                total: disk.total,
                used: disk.total - disk.available,
            };
            assert(usage@ == usage_of(all[i as int]));
            out.push(usage);
            assert(usage_views(out@) =~= before.push(usage_of(all[i as int])));
        }
        i += 1;
    }
    assert(disk_views(disks@).take(disks.len() as int) =~= disk_views(disks@));
    out
}

} // verus!
