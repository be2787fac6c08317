use vstd::prelude::*;
use crate::controller::ControllerType;

verus! {

/// What a controller announces of itself.
#[derive(Debug)]
pub struct ControllerInfo {
    pub id: u8,
    pub connection_info: u8,
    pub name: String,
}

/// The announcement of each controller type: its id, connection info and
/// product name.
pub fn controller_info(controller: ControllerType) -> (r: ControllerInfo)
    ensures
        r.id == controller.spec_id(),
        r.connection_info == (if controller is ProController { 0x00u8 } else { 0x0Eu8 }),
        r.name@ == controller.spec_name(),
{
    ControllerInfo {
        id: controller.id(),
        connection_info: controller.connection_info(),
        name: controller.name(),
    }
}

} // verus!
