//! Permissions that a tool call needs.

use vstd::prelude::*;

verus! {

/// A permission that a session can hold.
#[derive(Clone, Copy, Debug, PartialEq, Eq, Structural)]
pub enum Permission {
    ReadStorage,
    WriteStorage,
}

/// The permissions that one call needs.
#[derive(Clone, Debug, PartialEq, Eq)]
pub struct RequiredPermissions {
    pub permissions: Vec<Permission>,
}

impl View for RequiredPermissions {
    type V = Seq<Permission>;

    open spec fn view(&self) -> Seq<Permission> {
        self.permissions@
    }
}

/// Reading storage is all that is needed.
pub fn read_only() -> (r: RequiredPermissions)
    ensures
        r@ == seq![Permission::ReadStorage],
{
    let mut permissions: Vec<Permission> = Vec::new();
    permissions.push(Permission::ReadStorage);
    assert(permissions@ =~= seq![Permission::ReadStorage]);
    RequiredPermissions { permissions }
}

/// Both reading and writing storage are needed.
pub fn read_and_write() -> (r: RequiredPermissions)
    ensures
        r@ == seq![Permission::ReadStorage, Permission::WriteStorage],
{
    let mut permissions: Vec<Permission> = Vec::new();
    permissions.push(Permission::ReadStorage);
    permissions.push(Permission::WriteStorage);
    assert(permissions@ =~= seq![Permission::ReadStorage, Permission::WriteStorage]);
    RequiredPermissions { permissions }
}

} // verus!
