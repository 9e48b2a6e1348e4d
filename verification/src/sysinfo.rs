//! The system files the dashboard watches.

use vstd::prelude::*;
use vstd::string::StringExecFns;

verus! {

/// A system file: its label, whether it is present, and its path.
pub struct System {
    pub sysname: String,
    pub used: bool,
    pub path: String,
    opendoc: bool,
}

/// The text of a watched file's fields.
pub struct SystemView {
    pub sysname: Seq<char>,
    pub used: bool,
    pub path: Seq<char>,
    pub opendoc: bool,
}

impl View for System {
    type V = SystemView;

    closed spec fn view(&self) -> SystemView {
        SystemView {
            sysname: self.sysname@,
            used: self.used,
            path: self.path@,
            opendoc: self.opendoc,
        }
    }
}

/// The menu label of a file called `sysname`.
pub open spec fn menu_label(sysname: Seq<char>) -> Seq<char> {
    sysname + " : "@
}

/// The watched files, path first and label second.
pub open spec fn watched() -> Seq<(Seq<char>, Seq<char>)> {
    seq![
        ("/etc/systemd/system.conf"@, "system.conf"@),
        ("/etc/pacman.conf"@, "pacman"@),
        ("/bin/yay"@, "yay"@),
        ("/etc/modprobe.d/vfio.conf"@, "vfio"@),
    ]
}

/// The entry for the watched file `i`, given whether it is present.
pub open spec fn watched_entry(i: int, used: bool) -> SystemView {
    SystemView { sysname: watched()[i].1, used, path: watched()[i].0, opendoc: true }
}

/// Each watched entry shows the presence flag it was given, under the
/// watched file's path and label, with its document view enabled.
pub proof fn lemma_watched_entry_fields(i: int, used: bool)
    requires
        0 <= i < 4,
    ensures
        watched_entry(i, used).used == used,
        watched_entry(i, used).path == watched()[i].0,
        watched_entry(i, used).sysname == watched()[i].1,
        watched_entry(i, used).opendoc,
        watched()[3] == ("/etc/modprobe.d/vfio.conf"@, "vfio"@),
{
}

impl System {
    /// The file at `filepath`, labelled `sysname`; `used` tells whether it is
    /// a regular file.
    pub fn new(filepath: &str, sysname: &str, used: bool) -> (res: System)
        ensures
            res@ == (SystemView { sysname: sysname@, used, path: filepath@, opendoc: true }),
    {
        System {
            sysname: String::from_str(sysname),
            used,
            path: String::from_str(filepath),
            opendoc: true,
        }
    }

    /// The label shown in the menu: the name, then " : ".
    pub fn menu(&self) -> (res: String)
        ensures
            res@ == menu_label(self@.sysname),
    {
        self.sysname.clone().concat(" : ")
    }

    /// Whether the file's document view is enabled.
    pub fn opendoc(&self) -> (res: bool)
        ensures
            res == self@.opendoc,
    {
        self.opendoc
    }
}

/// The watched system files.
pub struct MyInfo {
    pub list: Vec<System>,
}

impl MyInfo {
    /// The paths and labels of the watched files, in menu order.
    pub fn watched_files() -> (res: Vec<(&'static str, &'static str)>)
        ensures
            res@.len() == watched().len(),
            forall|i: int| 0 <= i < res@.len() ==> (#[trigger] res@[i]).0@ == watched()[i].0
                && res@[i].1@ == watched()[i].1,
    {
        let mut v: Vec<(&'static str, &'static str)> = Vec::new();
        v.push(("/etc/systemd/system.conf", "system.conf"));
        v.push(("/etc/pacman.conf", "pacman"));
        v.push(("/bin/yay", "yay"));
        v.push(("/etc/modprobe.d/vfio.conf", "vfio"));
        v
    }

    /// The watched files; `used[i]` tells whether the `i`th of
    /// `watched_files()` is a regular file.
    pub fn new(used: [bool; 4]) -> (res: MyInfo)
        ensures
            res.list@.len() == 4,
            forall|i: int| 0 <= i < 4 ==> (#[trigger] res.list@[i])@ == watched_entry(i, used@[i]),
            forall|i: int| 0 <= i < 4 ==> (#[trigger] res.list@[i])@.used == used@[i],
            res.list@[0]@ == (SystemView {
                sysname: "system.conf"@, used: used@[0], path: "/etc/systemd/system.conf"@, opendoc: true }),
            res.list@[1]@ == (SystemView {
                sysname: "pacman"@, used: used@[1], path: "/etc/pacman.conf"@, opendoc: true }),
            res.list@[2]@ == (SystemView {
                sysname: "yay"@, used: used@[2], path: "/bin/yay"@, opendoc: true }),
            res.list@[3]@ == (SystemView {
                sysname: "vfio"@, used: used@[3], path: "/etc/modprobe.d/vfio.conf"@, opendoc: true }),
    {
        let mut list: Vec<System> = Vec::new();
        list.push(System::new("/etc/systemd/system.conf", "system.conf", used[0]));
        list.push(System::new("/etc/pacman.conf", "pacman", used[1]));
        list.push(System::new("/bin/yay", "yay", used[2]));
        list.push(System::new("/etc/modprobe.d/vfio.conf", "vfio", used[3]));
        MyInfo { list }
    }
}

} // verus!
