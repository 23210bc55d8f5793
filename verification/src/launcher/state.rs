//! The states of the virtual machine and the variants it can be launched as.

use vstd::prelude::*;

verus! {


/// Where the virtual machine stands in its life cycle.
#[derive(Debug, Clone, Copy, PartialEq, Eq, Structural)]
pub enum VmState {
    /// No machine is running and none was asked for.
    Inactive,
    /// A launch was requested and the setup is under way.
    Activating,
    /// The machine runs and the users were told.
    Launched,
    /// The machine is being taken down and the system restored.
    ShuttingDown,
}

impl VmState {
    /// The text shown to a user for this state.
    pub open spec fn label(self) -> Seq<char> {
        match self {
            VmState::Inactive => "Not Running"@,
            VmState::Activating => "Starting up"@,
            VmState::Launched => "Running"@,
            VmState::ShuttingDown => "Stopping"@,
        }
    }

    /// The text shown to a user for this state.
    pub fn to_string(&self) -> (text: String)
        ensures
            text@ == self.label(),
    {
        match self {
            VmState::Inactive => String::from_str("Not Running"),
            VmState::Activating => String::from_str("Starting up"),
            VmState::Launched => String::from_str("Running"),
            VmState::ShuttingDown => String::from_str("Stopping"),
        }
    }
}

impl Default for VmState {
    fn default() -> (state: Self)
        ensures
            state == VmState::Inactive,
    {
        VmState::Inactive
    }
}

/// The edges of the life cycle in normal operation.
pub open spec fn regular_edge(from: VmState, to: VmState) -> bool {
    ||| from == VmState::Inactive && to == VmState::Activating
    ||| from == VmState::Activating && to == VmState::Launched
    ||| from == VmState::Launched && to == VmState::ShuttingDown
    ||| from == VmState::ShuttingDown && to == VmState::Inactive
}

/// The one shortcut: a launch that is called off, or fails, before the machine
/// runs goes straight to the teardown.
pub open spec fn abort_edge(from: VmState, to: VmState) -> bool {
    from == VmState::Activating && to == VmState::ShuttingDown
}

/// How the machine is shown to its user.
#[derive(Debug, Clone, Copy, PartialEq, Eq, Structural)]
pub enum VmType {
    /// Full passthrough of the graphics card, viewed through Looking Glass.
    LookingGlass,
    /// A shared display served over Spice.
    Spice,
}

impl VmType {
    /// The text shown to a user for this variant.
    pub open spec fn label(self) -> Seq<char> {
        match self {
            VmType::LookingGlass => "Looking Glass"@,
            VmType::Spice => "Spice"@,
        }
    }

    /// The text shown to a user for this variant.
    pub fn to_string(&self) -> (text: String)
        ensures
            text@ == self.label(),
    {
        match self {
            VmType::LookingGlass => String::from_str("Looking Glass"),
            VmType::Spice => String::from_str("Spice"),
        }
    }

    /// Whether this variant needs the graphics card taken away from the host.
    pub fn dc_gpu(&self) -> (exclusive: bool)
        ensures
            exclusive == (*self == VmType::LookingGlass),
    {
        match self {
            VmType::LookingGlass => true,
            VmType::Spice => false,
        }
    }
}

impl Default for VmType {
    fn default() -> (vm_type: Self)
        ensures
            vm_type == VmType::LookingGlass,
    {
        VmType::LookingGlass
    }
}

} // verus!
