//! The driver of the MCOM FPGA, a chip on the I2C bus.

use vstd::prelude::*;
use vstd::string::is_ascii_spec_bytes;
use vstd::string::StringSliceAdditionalSpecFns;
use crate::error::Error;
use crate::error::ErrorKind;
use crate::i2c::Client;
use crate::i2c::Driver;
use crate::i2c::Transfer;
use crate::id_table::c_str;
use crate::id_table::lemma_c_len_is;
use crate::id_table::lemma_raw_name_c_str;
use crate::id_table::DeviceId;
use crate::id_table::IdTable;

verus! {

/// The bus address at which the chip answers.
pub const CHIP_ADDR: u16 = 0x3c;

/// The driver.
pub struct MComFPGA;

impl MComFPGA {
    /// The name under which the chip is known to the bus: `fpga`.
    pub open spec fn name() -> Seq<u8> {
        seq![0x66u8, 0x70u8, 0x67u8, 0x61u8]
    }

    /// The message that makes every pin of bank 0 an output: the number of
    /// the configuration register, then the value for it.
    pub open spec fn setup_message() -> Seq<u8> {
        seq![0x06u8, 0x00u8]
    }

    /// The identifier table of the driver: the one name `fpga`, without
    /// auxiliary data.
    pub fn id_table() -> (r: Result<IdTable<(), 1>, Error>)
        ensures
            r is Ok,
            r->Ok_0.name(0) == MComFPGA::name(),
            r->Ok_0.info(0) is None,
    {
        let name = "fpga";
        let id = DeviceId(name.as_bytes());
        proof {
            reveal_strlit("fpga");
            is_ascii_spec_bytes(name);
            assert(name.spec_bytes() =~= MComFPGA::name());
            lemma_c_len_is(id.0@, 4);
            assert(c_str(id.0@) =~= MComFPGA::name());
            lemma_raw_name_c_str(id);
        }
        let ids = [id];
        let infos: [Option<()>; 1] = [None];
        IdTable::new(ids, infos)
    }

    /// Decides on the setup of the chip once its probe has returned `ret` to
    /// the host. After an accepted probe, and only then, the chip is set up:
    /// the plan is the one transfer that writes the setup message to
    /// `client`, with the message. After a refused probe nothing is sent.
    pub fn setup_after_probe(ret: i32, client: &Client) -> (plan: Option<(Transfer, [u8; 2])>)
        ensures
            plan is Some <==> ret == 0,
            plan matches Some(p) ==> p.0.client() == client.raw_device() && p.0.flags() == 0
                && p.0.count() == 2 && p.1@ == MComFPGA::setup_message(),
    {
        if ret != 0 {
            return None;
        }
        let cmd: [u8; 2] = [0x06, 0x00];
        assert(cmd@ =~= MComFPGA::setup_message());
        match client.master_send(cmd.as_slice()) {
            Ok(transfer) => Some((transfer, cmd)),
            Err(_) => None,
        }
    }
}

impl Driver for MComFPGA {
    type Data = ();

    type IdInfo = ();

    /// Accepts the device that answers at the chip's address, and no other.
    fn probe(client: &Client, _id_info: Option<&()>) -> (r: Result<(), Error>)
        ensures
            client.get_addr() == CHIP_ADDR ==> r is Ok,
            client.get_addr() != CHIP_ADDR ==> r is Err && r->Err_0.has_kind(
                ErrorKind::InvalidArgument,
            ),
    {
        if client.get_addr() != CHIP_ADDR {
            return Err(Error::new(ErrorKind::InvalidArgument));
        }
        Ok(())
    }
}

} // verus!
