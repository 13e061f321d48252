//! Frame-level protocol service: dispatches decoded read/write requests
//! against one device's register banks. Reads of unmapped addresses return
//! the bank's zero value; unsupported function codes yield the "illegal
//! function" exception; nothing here ever panics.

use vstd::prelude::*;
use crate::registers::{DeviceRegisterContext, bit_at, word_at};

verus! {

/// A decoded request, as the framing layer hands it over. `Unsupported`
/// carries the raw function code of a frame this service does not serve.
pub enum Request {
    ReadCoils(u16, u16),
    ReadDiscreteInputs(u16, u16),
    ReadInputRegisters(u16, u16),
    ReadHoldingRegisters(u16, u16),
    WriteSingleCoil(u16, bool),
    WriteMultipleCoils(u16, Vec<bool>),
    WriteSingleRegister(u16, u16),
    WriteMultipleRegisters(u16, Vec<u16>),
    Unsupported(u8),
}

/// The response returned for a served request.
pub enum Response {
    ReadCoils(Vec<bool>),
    ReadDiscreteInputs(Vec<bool>),
    ReadInputRegisters(Vec<u16>),
    ReadHoldingRegisters(Vec<u16>),
    WriteSingleCoil(u16, bool),
    WriteMultipleCoils(u16, u16),
    WriteSingleRegister(u16, u16),
    WriteMultipleRegisters(u16, u16),
}

/// Protocol exception returned instead of a response.
pub enum ExceptionCode {
    IllegalFunction,
}

/// Register addressing wraps around the 16-bit address space.
pub open spec fn wrap_addr(addr: u16, i: int) -> u16 {
    ((addr + i) % 0x10000) as u16
}

/// The words a bank yields for `qty` consecutive addresses from `addr`.
pub open spec fn read_words(m: Map<u16, u16>, addr: u16, qty: u16) -> Seq<u16> {
    Seq::new(qty as nat, |i: int| word_at(m, wrap_addr(addr, i)))
}

/// The bits a boolean bank yields for `qty` consecutive addresses from `addr`.
pub open spec fn read_bits(m: Map<u16, bool>, addr: u16, qty: u16) -> Seq<bool> {
    Seq::new(qty as nat, |i: int| bit_at(m, wrap_addr(addr, i)))
}

/// A word bank after writing `vals` to consecutive addresses from `addr`.
pub open spec fn write_words(m: Map<u16, u16>, addr: u16, vals: Seq<u16>) -> Map<u16, u16>
    decreases vals.len(),
{
    if vals.len() == 0 {
        m
    } else {
        write_words(m, addr, vals.drop_last()).insert(
            wrap_addr(addr, vals.len() - 1),
            vals.last(),
        )
    }
}

/// A boolean bank after writing `vals` to consecutive addresses from `addr`.
pub open spec fn write_bits(m: Map<u16, bool>, addr: u16, vals: Seq<bool>) -> Map<u16, bool>
    decreases vals.len(),
{
    if vals.len() == 0 {
        m
    } else {
        write_bits(m, addr, vals.drop_last()).insert(
            wrap_addr(addr, vals.len() - 1),
            vals.last(),
        )
    }
}

/// The holding-register write events a request produces, in order.
pub open spec fn hr_events(addr: u16, vals: Seq<u16>) -> Seq<(u16, u16)> {
    Seq::new(vals.len(), |i: int| (wrap_addr(addr, i), vals[i]))
}

/// The `i`-th consecutive register address from `addr`, wrapping around.
fn wrap16(addr: u16, i: u16) -> (r: u16)
    ensures
        r == wrap_addr(addr, i as int),
{
    (((addr as u32) + (i as u32)) % 0x10000) as u16
}

/// Whether the banks of two contexts are the same.
pub open spec fn same_banks(a: DeviceRegisterContext, b: DeviceRegisterContext) -> bool {
    &&& a.coils@ == b.coils@
    &&& a.discrete_inputs@ == b.discrete_inputs@
    &&& a.input_registers@ == b.input_registers@
    &&& a.holding_registers@ == b.holding_registers@
}

/// Serves one decoded request against a device's register banks. On success
/// the result also carries the holding-register writes the request performed,
/// in order, for command arbitration. An unsupported function code yields the
/// "illegal function" exception, and only that; no request is an error on
/// account of its addresses.
pub fn handle_request(ctx: &mut DeviceRegisterContext, req: Request) -> (r: Result<
    (Response, Vec<(u16, u16)>),
    ExceptionCode,
>)
    requires
        (req matches Request::WriteMultipleCoils(_, vals) ==> vals@.len() <= 0xFFFF),
        (req matches Request::WriteMultipleRegisters(_, vals) ==> vals@.len() <= 0xFFFF),
    ensures
        match req {
            Request::ReadCoils(addr, qty) => {
                &&& same_banks(*final(ctx), *old(ctx))
                &&& r matches Ok((resp, ev)) && ev@ == Seq::<(u16, u16)>::empty()
                    && (resp matches Response::ReadCoils(v) && v@ == read_bits(
                    old(ctx).coils@,
                    addr,
                    qty,
                ))
            },
            Request::ReadDiscreteInputs(addr, qty) => {
                &&& same_banks(*final(ctx), *old(ctx))
                &&& r matches Ok((resp, ev)) && ev@ == Seq::<(u16, u16)>::empty()
                    && (resp matches Response::ReadDiscreteInputs(v) && v@ == read_bits(
                    old(ctx).discrete_inputs@,
                    addr,
                    qty,
                ))
            },
            Request::ReadInputRegisters(addr, qty) => {
                &&& same_banks(*final(ctx), *old(ctx))
                &&& r matches Ok((resp, ev)) && ev@ == Seq::<(u16, u16)>::empty()
                    && (resp matches Response::ReadInputRegisters(v) && v@ == read_words(
                    old(ctx).input_registers@,
                    addr,
                    qty,
                ))
            },
            Request::ReadHoldingRegisters(addr, qty) => {
                &&& same_banks(*final(ctx), *old(ctx))
                &&& r matches Ok((resp, ev)) && ev@ == Seq::<(u16, u16)>::empty()
                    && (resp matches Response::ReadHoldingRegisters(v) && v@ == read_words(
                    old(ctx).holding_registers@,
                    addr,
                    qty,
                ))
            },
            Request::WriteSingleCoil(addr, value) => {
                &&& final(ctx).coils@ == old(ctx).coils@.insert(addr, value)
                &&& final(ctx).discrete_inputs@ == old(ctx).discrete_inputs@
                &&& final(ctx).input_registers@ == old(ctx).input_registers@
                &&& final(ctx).holding_registers@ == old(ctx).holding_registers@
                &&& r matches Ok((resp, ev)) && ev@ == Seq::<(u16, u16)>::empty() && resp
                    == Response::WriteSingleCoil(addr, value)
            },
            Request::WriteMultipleCoils(addr, vals) => {
                &&& final(ctx).coils@ == write_bits(old(ctx).coils@, addr, vals@)
                &&& final(ctx).discrete_inputs@ == old(ctx).discrete_inputs@
                &&& final(ctx).input_registers@ == old(ctx).input_registers@
                &&& final(ctx).holding_registers@ == old(ctx).holding_registers@
                &&& r matches Ok((resp, ev)) && ev@ == Seq::<(u16, u16)>::empty() && resp
                    == Response::WriteMultipleCoils(addr, (vals@.len() as u16))
            },
            Request::WriteSingleRegister(addr, value) => {
                &&& final(ctx).holding_registers@ == old(ctx).holding_registers@.insert(
                    addr,
                    value,
                )
                &&& final(ctx).coils@ == old(ctx).coils@
                &&& final(ctx).discrete_inputs@ == old(ctx).discrete_inputs@
                &&& final(ctx).input_registers@ == old(ctx).input_registers@
                &&& r matches Ok((resp, ev)) && ev@ == seq![(addr, value)] && resp
                    == Response::WriteSingleRegister(addr, value)
            },
            Request::WriteMultipleRegisters(addr, vals) => {
                &&& final(ctx).holding_registers@ == write_words(
                    old(ctx).holding_registers@,
                    addr,
                    vals@,
                )
                &&& final(ctx).coils@ == old(ctx).coils@
                &&& final(ctx).discrete_inputs@ == old(ctx).discrete_inputs@
                &&& final(ctx).input_registers@ == old(ctx).input_registers@
                &&& r matches Ok((resp, ev)) && ev@ == hr_events(addr, vals@) && resp
                    == Response::WriteMultipleRegisters(addr, (vals@.len() as u16))
            },
            Request::Unsupported(_) => {
                &&& same_banks(*final(ctx), *old(ctx))
                &&& r matches Err(e) && e == ExceptionCode::IllegalFunction
            },
        },
{
    match req {
        Request::ReadCoils(addr, qty) => {
            let mut out: Vec<bool> = Vec::new();
            let mut i: u16 = 0;
            while i < qty
                invariant
                    i <= qty,
                    out@.len() == i as nat,
                    forall|j: int|
                        0 <= j < i ==> out@[j] == bit_at(ctx.coils@, wrap_addr(addr, j)),
                    same_banks(*ctx, *old(ctx)),
                decreases qty - i,
            {
                let v = ctx.get_coil(wrap16(addr, i));
                out.push(v);
                i += 1;
            }
            proof {
                assert(out@ =~= read_bits(old(ctx).coils@, addr, qty));
            }
            Ok((Response::ReadCoils(out), Vec::new()))
        },
        Request::ReadDiscreteInputs(addr, qty) => {
            let mut out: Vec<bool> = Vec::new();
            let mut i: u16 = 0;
            while i < qty
                invariant
                    i <= qty,
                    out@.len() == i as nat,
                    forall|j: int|
                        0 <= j < i ==> out@[j] == bit_at(
                            ctx.discrete_inputs@,
                            wrap_addr(addr, j),
                        ),
                    same_banks(*ctx, *old(ctx)),
                decreases qty - i,
            {
                let v = ctx.get_discrete_input(wrap16(addr, i));
                out.push(v);
                i += 1;
            }
            proof {
                assert(out@ =~= read_bits(old(ctx).discrete_inputs@, addr, qty));
            }
            Ok((Response::ReadDiscreteInputs(out), Vec::new()))
        },
        Request::ReadInputRegisters(addr, qty) => {
            let mut out: Vec<u16> = Vec::new();
            let mut i: u16 = 0;
            while i < qty
                invariant
                    i <= qty,
                    out@.len() == i as nat,
                    forall|j: int|
                        0 <= j < i ==> out@[j] == word_at(
                            ctx.input_registers@,
                            wrap_addr(addr, j),
                        ),
                    same_banks(*ctx, *old(ctx)),
                decreases qty - i,
            {
                let v = ctx.get_input_register(wrap16(addr, i));
                out.push(v);
                i += 1;
            }
            proof {
                assert(out@ =~= read_words(old(ctx).input_registers@, addr, qty));
            }
            Ok((Response::ReadInputRegisters(out), Vec::new()))
        },
        Request::ReadHoldingRegisters(addr, qty) => {
            let mut out: Vec<u16> = Vec::new();
            let mut i: u16 = 0;
            while i < qty
                invariant
                    i <= qty,
                    out@.len() == i as nat,
                    forall|j: int|
                        0 <= j < i ==> out@[j] == word_at(
                            ctx.holding_registers@,
                            wrap_addr(addr, j),
                        ),
                    same_banks(*ctx, *old(ctx)),
                decreases qty - i,
            {
                let v = ctx.get_holding_register(wrap16(addr, i));
                out.push(v);
                i += 1;
            }
            proof {
                assert(out@ =~= read_words(old(ctx).holding_registers@, addr, qty));
            }
            Ok((Response::ReadHoldingRegisters(out), Vec::new()))
        },
        Request::WriteSingleCoil(addr, value) => {
            ctx.set_coil(addr, value);
            Ok((Response::WriteSingleCoil(addr, value), Vec::new()))
        },
        Request::WriteMultipleCoils(addr, vals) => {
            let mut i: usize = 0;
            while i < vals.len()
                invariant
                    i <= vals@.len(),
                    vals@.len() <= 0xFFFF,
                    ctx.coils@ == write_bits(old(ctx).coils@, addr, vals@.take(i as int)),
                    ctx.discrete_inputs@ == old(ctx).discrete_inputs@,
                    ctx.input_registers@ == old(ctx).input_registers@,
                    ctx.holding_registers@ == old(ctx).holding_registers@,
                decreases vals@.len() - i,
            {
                proof {
                    assert(vals@.take(i + 1).drop_last() =~= vals@.take(i as int));
                }
                ctx.set_coil(wrap16(addr, i as u16), vals[i]);
                i += 1;
            }
            proof {
                assert(vals@.take(vals@.len() as int) =~= vals@);
            }
            let count = vals.len() as u16;
            Ok((Response::WriteMultipleCoils(addr, count), Vec::new()))
        },
        Request::WriteSingleRegister(addr, value) => {
            ctx.set_holding_register(addr, value);
            let mut ev: Vec<(u16, u16)> = Vec::new();
            ev.push((addr, value));
            proof {
                assert(ev@ =~= seq![(addr, value)]);
            }
            Ok((Response::WriteSingleRegister(addr, value), ev))
        },
        Request::WriteMultipleRegisters(addr, vals) => {
            let mut ev: Vec<(u16, u16)> = Vec::new();
            let mut i: usize = 0;
            while i < vals.len()
                invariant
                    i <= vals@.len(),
                    vals@.len() <= 0xFFFF,
                    ctx.holding_registers@ == write_words(
                        old(ctx).holding_registers@,
                        addr,
                        vals@.take(i as int),
                    ),
                    ctx.coils@ == old(ctx).coils@,
                    ctx.discrete_inputs@ == old(ctx).discrete_inputs@,
                    ctx.input_registers@ == old(ctx).input_registers@,
                    ev@.len() == i as nat,
                    forall|j: int|
                        0 <= j < i ==> ev@[j] == (wrap_addr(addr, j), vals@[j]),
                decreases vals@.len() - i,
            {
                proof {
                    assert(vals@.take(i + 1).drop_last() =~= vals@.take(i as int));
                }
                let a = wrap16(addr, i as u16);
                ctx.set_holding_register(a, vals[i]);
                ev.push((a, vals[i]));
                i += 1;
            }
            proof {
                assert(vals@.take(vals@.len() as int) =~= vals@);
                assert(ev@ =~= hr_events(addr, vals@));
            }
            let count = vals.len() as u16;
            Ok((Response::WriteMultipleRegisters(addr, count), ev))
        },
        Request::Unsupported(_) => Err(ExceptionCode::IllegalFunction),
    }
}

} // verus!
