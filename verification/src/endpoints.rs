//! The endpoint validator: the console interface must have exactly two
//! endpoints, a bulk OUT endpoint followed by a bulk IN endpoint.

use crate::descriptor::{Direction, EndpointDescriptor, InterfaceDescriptor, TransferType};
use crate::error::EndpointError;
use vstd::prelude::*;

verus! {

/// The two endpoints of the console interface.
#[derive(Clone, Copy, Debug, PartialEq, Eq, Structural)]
pub struct EndpointPair {
    /// Host to device. Extracted and checked, but no transfer uses it.
    pub endpoint_out: EndpointDescriptor,
    /// Device to host: the endpoint that the console stream is read from.
    pub endpoint_in: EndpointDescriptor,
}

/// What the validator makes of an endpoint list.
///
/// The checks come in a fixed order, and the first that fails names the error:
/// the number of endpoints, then the two directions, then the two transfer
/// types.
pub open spec fn endpoint_shape(endpoints: Seq<EndpointDescriptor>) -> Result<
    EndpointPair,
    EndpointError,
> {
    if endpoints.len() < 2 {
        Err(EndpointError::MissingEndpoint)
    } else if endpoints.len() > 2 {
        Err(EndpointError::ExtraEndpoint)
    } else if endpoints[0].direction != Direction::Out || endpoints[1].direction
        != Direction::In {
        Err(EndpointError::WrongDirection)
    } else if endpoints[0].transfer_type != TransferType::Bulk || endpoints[1].transfer_type
        != TransferType::Bulk {
        Err(EndpointError::WrongTransferType)
    } else {
        Ok(EndpointPair { endpoint_out: endpoints[0], endpoint_in: endpoints[1] })
    }
}

/// Extracts the OUT and IN endpoint of `descriptor`, in their listed order, or
/// says in which way the endpoint list differs from the expected pair.
pub fn validate_endpoints(descriptor: &InterfaceDescriptor) -> (r: Result<
    EndpointPair,
    EndpointError,
>)
    ensures
        r == endpoint_shape(descriptor@.endpoints),
{
    let endpoints = &descriptor.endpoints;
    if endpoints.len() < 2 {
        return Err(EndpointError::MissingEndpoint);
    }
    if endpoints.len() > 2 {
        return Err(EndpointError::ExtraEndpoint);
    }
    let endpoint_out = endpoints[0];
    let endpoint_in = endpoints[1];
    if endpoint_out.direction != Direction::Out || endpoint_in.direction != Direction::In {
        return Err(EndpointError::WrongDirection);
    }
    if endpoint_out.transfer_type != TransferType::Bulk || endpoint_in.transfer_type
        != TransferType::Bulk {
        return Err(EndpointError::WrongTransferType);
    }
    Ok(EndpointPair { endpoint_out, endpoint_in })
}

/// Validation succeeds exactly on a list of two endpoints, bulk OUT then bulk
/// IN, and then yields those two in that order.
pub proof fn law_valid_shape(endpoints: Seq<EndpointDescriptor>)
    ensures
        endpoint_shape(endpoints).is_ok() <==> {
            &&& endpoints.len() == 2
            &&& endpoints[0].direction == Direction::Out
            &&& endpoints[1].direction == Direction::In
            &&& endpoints[0].transfer_type == TransferType::Bulk
            &&& endpoints[1].transfer_type == TransferType::Bulk
        },
        endpoint_shape(endpoints) matches Ok(pair) ==> pair.endpoint_out == endpoints[0]
            && pair.endpoint_in == endpoints[1],
{
}

} // verus!
