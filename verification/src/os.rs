//! The records of the user, group and system queries.
use vstd::prelude::*;

verus! {

/// Cross platform representation of a pid_t.
pub type Pid = i32;

/// Cross platform representation of a user id.
pub type Uid = u32;

/// Cross platform representation of a group id.
pub type Gid = u32;

/// The id that libuv reports as the signed value `raw` (a `long`): none when it is negative,
/// which is how libuv marks an id that the platform does not have; otherwise the id, kept to the
/// width of an id.
pub open spec fn spec_id_from_raw(raw: i64) -> Option<u32> {
    if raw >= 0 {
        Some(raw as u32)
    } else {
        None
    }
}

/// The id that libuv reports as the signed value `raw`: none when it is negative.
pub fn id_from_raw(raw: i64) -> (r: Option<u32>)
    ensures
        r == spec_id_from_raw(raw),
        0 <= raw <= u32::MAX ==> r == Some(raw as u32),
        raw < 0 ==> r is None,
{
    if raw >= 0 {
        Some(raw as u32)
    } else {
        None
    }
}

/// Every id that fits in an id is reported as that id, whatever its size; only a negative value,
/// libuv's mark for an id that the platform does not have, is reported as missing. Two values
/// that both fit are reported as the same id only when they are equal.
pub proof fn lemma_id_from_raw(raw: i64, other: i64)
    ensures
        0 <= raw <= u32::MAX ==> spec_id_from_raw(raw) == Some(raw as u32),
        raw < 0 ==> spec_id_from_raw(raw) is None,
        0 <= raw <= u32::MAX && 0 <= other <= u32::MAX && spec_id_from_raw(raw) == spec_id_from_raw(
            other,
        ) ==> raw == other,
{
}

/// Data type for user information.
#[derive(Debug)]
pub struct User {
    /// The name of the user.
    pub username: String,
    /// The user id, when the platform has one.
    pub uid: Option<Uid>,
    /// The group id, when the platform has one.
    pub gid: Option<Gid>,
    /// The shell, when the platform has one.
    pub shell: Option<String>,
    /// The home directory.
    pub homedir: String,
}

impl User {
    /// The user described by a password-file entry, whose ids are given as the signed values
    /// that libuv reports (negative when the platform has no such id).
    pub fn from_raw(
        username: String,
        uid: i64,
        gid: i64,
        shell: Option<String>,
        homedir: String,
    ) -> (r: User)
        ensures
            r.username@ == username@,
            r.uid == spec_id_from_raw(uid),
            r.gid == spec_id_from_raw(gid),
            0 <= uid <= u32::MAX ==> r.uid == Some(uid as u32),
            0 <= gid <= u32::MAX ==> r.gid == Some(gid as u32),
            uid < 0 ==> r.uid is None,
            gid < 0 ==> r.gid is None,
            r.shell == shell,
            r.homedir@ == homedir@,
    {
        User { username, uid: id_from_raw(uid), gid: id_from_raw(gid), shell, homedir }
    }
}

/// Data type for group file information.
#[derive(Debug)]
pub struct Group {
    /// The name of the group.
    pub groupname: String,
    /// The group id, when the platform has one.
    pub gid: Option<Gid>,
    /// The names of the members of the group.
    pub members: Vec<String>,
}

impl Group {
    /// The group described by a group-file entry, whose id is given as the signed value that
    /// libuv reports (negative when the platform has no such id).
    pub fn from_raw(groupname: String, gid: i64, members: Vec<String>) -> (r: Group)
        ensures
            r.groupname@ == groupname@,
            r.gid == spec_id_from_raw(gid),
            0 <= gid <= u32::MAX ==> r.gid == Some(gid as u32),
            gid < 0 ==> r.gid is None,
            r.members@ == members@,
    {
        Group { groupname, gid: id_from_raw(gid), members }
    }
}

/// Data type for operating system name and version information.
#[derive(Debug)]
pub struct SystemInfo {
    /// The name of the operating system.
    pub sysname: String,
    /// The release of the operating system.
    pub release: String,
    /// The version of the operating system.
    pub version: String,
    /// The hardware name of the machine.
    pub machine: String,
}

} // verus!
