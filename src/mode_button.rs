//! Where the mode switch button is mounted, and the bus endpoints of the
//! tracked device that carries it.
use vstd::prelude::*;
use crate::vector::Vec3i;

verus! {

/// The device that carries the mode switch button.
#[derive(Debug, Clone, Copy, PartialEq, Eq, Structural)]
pub enum ButtonLocation {
    Hand,
    Controller,
}

/// Bus name, spatial object path and tracking object path of a device.
pub struct ButtonEndpoints {
    pub destination: &'static str,
    pub spatial_path: &'static str,
    pub tracked_path: &'static str,
}

impl ButtonLocation {
    pub open spec fn spec_endpoints(self) -> (Seq<char>, Seq<char>, Seq<char>) {
        match self {
            ButtonLocation::Hand => (
                "org.stardustxr.Hands"@,
                "/org/stardustxr/Hand/right/palm"@,
                "/org/stardustxr/Hand/right"@,
            ),
            ButtonLocation::Controller => (
                "org.stardustxr.Controllers"@,
                "/org/stardustxr/Controller/right"@,
                "/org/stardustxr/Controller/right"@,
            ),
        }
    }

    /// The right hand's palm, or the right controller.
    pub fn endpoints(&self) -> (r: ButtonEndpoints)
        ensures
            (r.destination@, r.spatial_path@, r.tracked_path@) == self.spec_endpoints(),
    {
        match self {
            ButtonLocation::Hand => ButtonEndpoints {
                destination: "org.stardustxr.Hands",
                spatial_path: "/org/stardustxr/Hand/right/palm",
                tracked_path: "/org/stardustxr/Hand/right",
            },
            ButtonLocation::Controller => ButtonEndpoints {
                destination: "org.stardustxr.Controllers",
                spatial_path: "/org/stardustxr/Controller/right",
                tracked_path: "/org/stardustxr/Controller/right",
            },
        }
    }

    pub open spec fn spec_button_offset(self) -> Vec3i {
        match self {
            ButtonLocation::Hand => Vec3i { x: 0i64, y: -20_000i64, z: 30_000i64 },
            ButtonLocation::Controller => Vec3i { x: 0i64, y: 10_000i64, z: 20_000i64 },
        }
    }

    /// Where the button sits relative to the device, in micrometres: below
    /// and behind the palm, or above and behind the controller's grip.
    pub fn button_offset(&self) -> (r: Vec3i)
        ensures
            r == self.spec_button_offset(),
    {
        match self {
            ButtonLocation::Hand => Vec3i { x: 0, y: -20_000, z: 30_000 },
            ButtonLocation::Controller => Vec3i { x: 0, y: 10_000, z: 20_000 },
        }
    }
}

} // verus!
