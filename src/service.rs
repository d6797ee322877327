use std::time::Duration;

use tokio::sync::oneshot;
use vstd::prelude::*;

use crate::error::{Error, InvalidRequest};
use crate::types::{AddressRange, CoilState, Indexed, RegisterValue, UnitId, MAX_BINARY_BITS, MAX_REGISTERS};

verus! {

/// One call on its way to the transport worker: the unit it addresses, how
/// long the worker should wait for the device, the call's argument and the
/// writer end through which the worker delivers the outcome.
#[verifier::reject_recursive_types(Resp)]
pub struct ServiceRequest<Req, Resp> {
    pub id: UnitId,
    pub timeout: Duration,
    pub argument: Req,
    pub reply_to: oneshot::Sender<Result<Resp, Error>>,
}

impl<Req, Resp> ServiceRequest<Req, Resp> {
    pub fn new(
        id: UnitId,
        timeout: Duration,
        argument: Req,
        reply_to: oneshot::Sender<Result<Resp, Error>>,
    ) -> (r: Self)
        ensures
            r.id == id,
            r.timeout == timeout,
            r.argument == argument,
            r.reply_to == reply_to,
    {
        ServiceRequest { id, timeout, argument, reply_to }
    }
}

/// What the request queue carries: one variant per supported function.
pub enum Request {
    ReadCoils(ServiceRequest<AddressRange, Vec<Indexed<bool>>>),
    ReadDiscreteInputs(ServiceRequest<AddressRange, Vec<Indexed<bool>>>),
    ReadHoldingRegisters(ServiceRequest<AddressRange, Vec<Indexed<u16>>>),
    ReadInputRegisters(ServiceRequest<AddressRange, Vec<Indexed<u16>>>),
    WriteSingleCoil(ServiceRequest<Indexed<CoilState>, Indexed<CoilState>>),
    WriteSingleRegister(ServiceRequest<Indexed<RegisterValue>, Indexed<RegisterValue>>),
}

/// One supported function: its argument and response types, the check its
/// argument must pass before it is queued, and the variant of the queue's
/// envelope that carries it.
pub trait Service {
    type Request;

    type Response;

    /// What validating an argument gives.
    spec fn request_check(request: Self::Request) -> Result<(), InvalidRequest>;

    /// The call that an envelope carries, where it is of this function.
    spec fn carried(envelope: Request) -> Option<ServiceRequest<Self::Request, Self::Response>>;

    fn check_request_validity(request: &Self::Request) -> (r: Result<(), InvalidRequest>)
        ensures
            r == Self::request_check(*request),
    ;

    fn create_request(request: ServiceRequest<Self::Request, Self::Response>) -> (r: Request)
        ensures
            Self::carried(r) == Some(request),
    ;
}

pub struct ReadCoils;

pub struct ReadDiscreteInputs;

pub struct ReadHoldingRegisters;

pub struct ReadInputRegisters;

pub struct WriteSingleCoil;

pub struct WriteSingleRegister;

impl Service for ReadCoils {
    type Request = AddressRange;

    type Response = Vec<Indexed<bool>>;

    open spec fn request_check(request: AddressRange) -> Result<(), InvalidRequest> {
        request.check_spec(MAX_BINARY_BITS)
    }

    open spec fn carried(envelope: Request) -> Option<ServiceRequest<AddressRange, Vec<Indexed<bool>>>> {
        match envelope {
            Request::ReadCoils(r) => Some(r),
            _ => None,
        }
    }

    fn check_request_validity(request: &AddressRange) -> (r: Result<(), InvalidRequest>) {
        request.check_validity_for_bits()
    }

    fn create_request(request: ServiceRequest<AddressRange, Vec<Indexed<bool>>>) -> (r: Request) {
        Request::ReadCoils(request)
    }
}

impl Service for ReadDiscreteInputs {
    type Request = AddressRange;

    type Response = Vec<Indexed<bool>>;

    open spec fn request_check(request: AddressRange) -> Result<(), InvalidRequest> {
        request.check_spec(MAX_BINARY_BITS)
    }

    open spec fn carried(envelope: Request) -> Option<ServiceRequest<AddressRange, Vec<Indexed<bool>>>> {
        match envelope {
            Request::ReadDiscreteInputs(r) => Some(r),
            _ => None,
        }
    }

    fn check_request_validity(request: &AddressRange) -> (r: Result<(), InvalidRequest>) {
        request.check_validity_for_bits()
    }

    fn create_request(request: ServiceRequest<AddressRange, Vec<Indexed<bool>>>) -> (r: Request) {
        Request::ReadDiscreteInputs(request)
    }
}

impl Service for ReadHoldingRegisters {
    type Request = AddressRange;

    type Response = Vec<Indexed<u16>>;

    open spec fn request_check(request: AddressRange) -> Result<(), InvalidRequest> {
        request.check_spec(MAX_REGISTERS)
    }

    open spec fn carried(envelope: Request) -> Option<ServiceRequest<AddressRange, Vec<Indexed<u16>>>> {
        match envelope {
            Request::ReadHoldingRegisters(r) => Some(r),
            _ => None,
        }
    }

    fn check_request_validity(request: &AddressRange) -> (r: Result<(), InvalidRequest>) {
        request.check_validity_for_registers()
    }

    fn create_request(request: ServiceRequest<AddressRange, Vec<Indexed<u16>>>) -> (r: Request) {
        Request::ReadHoldingRegisters(request)
    }
}

impl Service for ReadInputRegisters {
    type Request = AddressRange;

    type Response = Vec<Indexed<u16>>;

    open spec fn request_check(request: AddressRange) -> Result<(), InvalidRequest> {
        request.check_spec(MAX_REGISTERS)
    }

    open spec fn carried(envelope: Request) -> Option<ServiceRequest<AddressRange, Vec<Indexed<u16>>>> {
        match envelope {
            Request::ReadInputRegisters(r) => Some(r),
            _ => None,
        }
    }

    fn check_request_validity(request: &AddressRange) -> (r: Result<(), InvalidRequest>) {
        request.check_validity_for_registers()
    }

    fn create_request(request: ServiceRequest<AddressRange, Vec<Indexed<u16>>>) -> (r: Request) {
        Request::ReadInputRegisters(request)
    }
}

impl Service for WriteSingleCoil {
    type Request = Indexed<CoilState>;

    type Response = Indexed<CoilState>;

    /// Every address and both states can be written.
    open spec fn request_check(request: Indexed<CoilState>) -> Result<(), InvalidRequest> {
        Ok(())
    }

    open spec fn carried(envelope: Request) -> Option<ServiceRequest<Indexed<CoilState>, Indexed<CoilState>>> {
        match envelope {
            Request::WriteSingleCoil(r) => Some(r),
            _ => None,
        }
    }

    fn check_request_validity(request: &Indexed<CoilState>) -> (r: Result<(), InvalidRequest>) {
        Ok(())
    }

    fn create_request(request: ServiceRequest<Indexed<CoilState>, Indexed<CoilState>>) -> (r: Request) {
        Request::WriteSingleCoil(request)
    }
}

impl Service for WriteSingleRegister {
    type Request = Indexed<RegisterValue>;

    type Response = Indexed<RegisterValue>;

    /// Every address and every 16-bit value can be written.
    open spec fn request_check(request: Indexed<RegisterValue>) -> Result<(), InvalidRequest> {
        Ok(())
    }

    open spec fn carried(envelope: Request) -> Option<ServiceRequest<Indexed<RegisterValue>, Indexed<RegisterValue>>> {
        match envelope {
            Request::WriteSingleRegister(r) => Some(r),
            _ => None,
        }
    }

    fn check_request_validity(request: &Indexed<RegisterValue>) -> (r: Result<(), InvalidRequest>) {
        Ok(())
    }

    fn create_request(request: ServiceRequest<Indexed<RegisterValue>, Indexed<RegisterValue>>) -> (r: Request) {
        Request::WriteSingleRegister(request)
    }
}

} // verus!
