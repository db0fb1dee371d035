use vstd::prelude::*;

use crate::address::Address;
use crate::errors::AppError;

verus! {

/// Administrative settings.
#[derive(Clone, Copy, Debug)]
pub struct Config {
    /// Who may change the settings.
    pub admin: Address,
    /// Who may run buyback and burn.
    pub bury_authority: Address,
    /// Who receives the platform fee.
    pub fee_collector: Address,
    /// The program that performs swaps.
    pub swap_program: Address,
    /// The oracle variable that supplies randomness.
    pub var_address: Address,
    /// A free-form value.
    pub buffer: u64,
}

/// New administrator.
#[derive(Clone, Copy, Debug)]
pub struct SetAdminArgs {
    pub new_admin: Address,
}

/// New fee collector.
#[derive(Clone, Copy, Debug)]
pub struct SetFeeCollectorArgs {
    pub new_fee_collector: Address,
}

/// New buffer value.
#[derive(Clone, Copy, Debug)]
pub struct SetBufferArgs {
    pub buffer: u64,
}

/// Settings of a new oracle variable.
#[derive(Clone, Copy, Debug)]
pub struct NewVarArgs {
    pub id: u64,
    pub commit: [u8; 32],
    pub samples: u64,
    pub end_at: u64,
}

impl Config {
    /// The settings at program start: `signer` administers, runs buyback and collects fees;
    /// no swap program and no oracle variable yet.
    pub fn new(signer: Address) -> (r: Config)
        ensures
            r.admin == signer && r.bury_authority == signer && r.fee_collector == signer,
            r.swap_program.bytes@ == crate::address::zero_bytes(),
            r.var_address.bytes@ == crate::address::zero_bytes(),
            r.buffer == 0,
    {
        Config {
            admin: signer,
            bury_authority: signer,
            fee_collector: signer,
            swap_program: Address::zero(),
            var_address: Address::zero(),
            buffer: 0,
        }
    }

    /// `Ok` when `signer` is the administrator, `NotAuthorized` otherwise.
    pub fn check_admin(&self, signer: &Address) -> (r: Result<(), AppError>)
        ensures
            r is Ok <==> self.admin.bytes@ == signer.bytes@,
            r is Err ==> r == Err::<(), AppError>(AppError::NotAuthorized),
    {
        if self.admin.same(signer) {
            Ok(())
        } else {
            Err(AppError::NotAuthorized)
        }
    }

    /// The administrator hands over to `args.new_admin`.
    pub fn set_admin(&mut self, signer: &Address, args: &SetAdminArgs) -> (r: Result<(), AppError>)
        ensures
            r is Ok <==> old(self).admin.bytes@ == signer.bytes@,
            r is Ok ==> *final(self) == (Config { admin: args.new_admin, ..*old(self) }),
            r is Err ==> r == Err::<(), AppError>(AppError::NotAuthorized) && *final(self) == *old(self),
    {
        match self.check_admin(signer) {
            Ok(()) => {},
            Err(e) => {
                return Err(e);
            },
        }
        self.admin = args.new_admin;
        Ok(())
    }

    /// The administrator names a new fee collector.
    pub fn set_fee_collector(&mut self, signer: &Address, args: &SetFeeCollectorArgs) -> (r: Result<
        (),
        AppError,
    >)
        ensures
            r is Ok <==> old(self).admin.bytes@ == signer.bytes@,
            r is Ok ==> *final(self) == (Config { fee_collector: args.new_fee_collector, ..*old(self) }),
            r is Err ==> r == Err::<(), AppError>(AppError::NotAuthorized) && *final(self) == *old(self),
    {
        match self.check_admin(signer) {
            Ok(()) => {},
            Err(e) => {
                return Err(e);
            },
        }
        self.fee_collector = args.new_fee_collector;
        Ok(())
    }

    /// The administrator names a new swap program.
    pub fn set_swap_program(&mut self, signer: &Address, swap_program: &Address) -> (r: Result<
        (),
        AppError,
    >)
        ensures
            r is Ok <==> old(self).admin.bytes@ == signer.bytes@,
            r is Ok ==> *final(self) == (Config { swap_program: *swap_program, ..*old(self) }),
            r is Err ==> r == Err::<(), AppError>(AppError::NotAuthorized) && *final(self) == *old(self),
    {
        match self.check_admin(signer) {
            Ok(()) => {},
            Err(e) => {
                return Err(e);
            },
        }
        self.swap_program = *swap_program;
        Ok(())
    }

    /// The administrator names a new oracle variable.
    pub fn set_var_address(&mut self, signer: &Address, var_address: &Address) -> (r: Result<
        (),
        AppError,
    >)
        ensures
            r is Ok <==> old(self).admin.bytes@ == signer.bytes@,
            r is Ok ==> *final(self) == (Config { var_address: *var_address, ..*old(self) }),
            r is Err ==> r == Err::<(), AppError>(AppError::NotAuthorized) && *final(self) == *old(self),
    {
        match self.check_admin(signer) {
            Ok(()) => {},
            Err(e) => {
                return Err(e);
            },
        }
        self.var_address = *var_address;
        Ok(())
    }

    /// The administrator sets the buffer value.
    pub fn set_buffer(&mut self, signer: &Address, args: &SetBufferArgs) -> (r: Result<(), AppError>)
        ensures
            r is Ok <==> old(self).admin.bytes@ == signer.bytes@,
            r is Ok ==> *final(self) == (Config { buffer: args.buffer, ..*old(self) }),
            r is Err ==> r == Err::<(), AppError>(AppError::NotAuthorized) && *final(self) == *old(self),
    {
        match self.check_admin(signer) {
            Ok(()) => {},
            Err(e) => {
                return Err(e);
            },
        }
        self.buffer = args.buffer;
        Ok(())
    }
}

/// The end slot of a new oracle variable: the one asked for, or the board's window end when
/// zero is asked for; it must lie after `slot`.
pub fn new_var_end_at(requested: u64, board_end_slot: u64, slot: u64) -> (r: Result<u64, AppError>)
    ensures
        ({
            let end_at = if requested == 0 {
                board_end_slot
            } else {
                requested
            };
            &&& end_at > slot ==> r == Ok::<u64, AppError>(end_at)
            &&& end_at <= slot ==> r == Err::<u64, AppError>(AppError::InvalidEndSlot)
        }),
{
    let end_at = if requested == 0 {
        board_end_slot
    } else {
        requested
    };
    if end_at > slot {
        Ok(end_at)
    } else {
        Err(AppError::InvalidEndSlot)
    }
}

} // verus!
