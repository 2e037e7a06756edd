use vstd::prelude::*;

use crate::cpu::alu::{
    adc_result, adc_flags, carry_bit, daa_carry, daa_result, sbc_result, sbc_flags,
    spec_add_signed8,
};
use crate::cpu::carry::{spec_is_half_borrow, spec_is_half_carry};
use crate::cpu::cb_ops::{
    bit_of, left_popped, res_bit, right_popped, rl_byte, rlc_byte, rotate_flags, rr_byte,
    rrc_byte, set_bit, sla_byte, sra_byte, srl_byte, swap_byte,
};
use crate::cpu::jumps::spec_rst_address;
use crate::cpu::loads::spec_push_value;
use crate::cpu::register::{
    be16, flags_of, high_byte, lemma_flags_of_props, lemma_high_nibble_mask_clean,
    lemma_mask_literals, low_byte, spec_cc, spec_get_flag, spec_get_r8, spec_get_r16,
    spec_set_r8, spec_set_r16, Flag, Registers,
};
use crate::cpu::{
    ctrl_unchanged, ram_eq, ram_wrote, regs_step, spec_pop16_value, spec_push16_data, CPU, Ime,
    Mode,
};
use crate::error::EmuError;
use crate::ram::{spec_pending_interrupt, spec_write, DMA_TRIGGER_ADDRESS};

verus! {

/// The two highest bits of an opcode (the opcode map's leading octal digit;
/// it is at most 3).
pub open spec fn first_u3(i: u8) -> u8 {
    (i >> 6) & 0x07
}

/// Bits 3 to 5 of an opcode: the destination register, condition code or
/// bit index field.
pub open spec fn middle_u3(i: u8) -> u8 {
    (i >> 3) & 0x07
}

/// The three lowest bits of an opcode: the source register field.
pub open spec fn last_u3(i: u8) -> u8 {
    i & 0x07
}

/// The 2-bit 16-bit-register code carried in the middle field: opcodes that
/// step by one octal digit use the even rows, opcodes that step by the odd
/// rows subtract one first.
pub open spec fn spec_interleaved_r16(i: u8, is_zero_indexed: bool) -> u8 {
    let digits = middle_u3(i);
    if is_zero_indexed || digits == 0 {
        digits / 2
    } else {
        ((digits - 1) / 2) as u8
    }
}

pub fn op_first_u3(i: u8) -> (r: u8)
    ensures
        r == first_u3(i),
{
    (i >> 6) & 0x07
}

pub fn op_middle_u3(i: u8) -> (r: u8)
    ensures
        r == middle_u3(i),
{
    (i >> 3) & 0x07
}

pub fn op_last_u3(i: u8) -> (r: u8)
    ensures
        r == last_u3(i),
{
    i & 0x07
}

pub fn op_interleaved_r16(i: u8, is_zero_indexed: bool) -> (r: u8)
    ensures
        r == spec_interleaved_r16(i, is_zero_indexed),
{
    let digits = op_middle_u3(i);
    if is_zero_indexed || digits == 0 {
        digits / 2
    } else {
        (digits - 1) / 2
    }
}

/// The middle field is below 8 and the first field below 4, whatever the
/// opcode byte.
pub proof fn lemma_field_bounds()
    by (bit_vector)
    ensures
        forall|i: u8| #[trigger] ((i >> 6) & 0x07) < 4,
        forall|i: u8| #[trigger] ((i >> 3) & 0x07) < 8,
        forall|i: u8| #[trigger] (i & 0x07) < 8,
{
}

/// The decoded form of an opcode: which executor it selects.  `Illegal`
/// covers the eleven architecturally undefined bytes (and the prefix byte
/// itself, which the fetch step resolves before decode).
#[derive(PartialEq, Eq, Debug, Clone, Copy, Structural)]
pub enum OpKind {
    Nop,
    Stop,
    LdA16Sp,
    Scf,
    Ccf,
    Halt,
    IncR16,
    DecR16,
    IncHl,
    IncR8,
    DecHl,
    DecR8,
    LdHlN8,
    LdR8N8,
    LdR16N16,
    AddHlR16,
    LdR16A,
    LdAR16,
    LdHliA,
    LdAHli,
    LdHldA,
    LdAHld,
    RlcA,
    RrcA,
    RlA,
    RrA,
    Daa,
    Cpl,
    JrN16,
    JrCcN16,
    LdHlR8,
    LdR8Hl,
    LdR8R8,
    AddAHl,
    AddAR8,
    AddAN8,
    AdcAHl,
    AdcAR8,
    AdcAN8,
    SubAHl,
    SubAR8,
    SubAN8,
    SbcAHl,
    SbcAR8,
    SbcAN8,
    AndAHl,
    AndAR8,
    AndAN8,
    XorAHl,
    XorAR8,
    XorAN8,
    OrAHl,
    OrAR8,
    OrAN8,
    CpAHl,
    CpAR8,
    CpAN8,
    JpN16,
    JpCcN16,
    JpHl,
    CallN16,
    CallCcN16,
    RetCc,
    Ret,
    Reti,
    Rst,
    PushR16,
    PopR16,
    AddSpE8,
    LdHlSpE8,
    LdSpHl,
    Di,
    Ei,
    LdhN16A,
    LdhCA,
    LdN16A,
    LdhAN16,
    LdhAC,
    LdAN16,
    RlcR8,
    RlcHl,
    RrcR8,
    RrcHl,
    RlR8,
    RlHl,
    RrR8,
    RrHl,
    SlaR8,
    SlaHl,
    SraR8,
    SraHl,
    SwapR8,
    SwapHl,
    SrlR8,
    SrlHl,
    BitU3R8,
    BitU3Hl,
    ResU3R8,
    ResU3Hl,
    SetU3R8,
    SetU3Hl,
    Illegal,
}

/// The base opcode table, decomposed by the three bit fields.
pub open spec fn spec_kind_base(i: u8) -> OpKind {
    let f = first_u3(i);
    let m = middle_u3(i);
    let l = last_u3(i);
    if f == 0 {
        if m == 0 && l == 0 {
            OpKind::Nop
        } else if m == 2 && l == 0 {
            OpKind::Stop
        } else if m == 1 && l == 0 {
            OpKind::LdA16Sp
        } else if m == 6 && l == 7 {
            OpKind::Scf
        } else if m == 7 && l == 7 {
            OpKind::Ccf
        } else if m % 2 == 0 && l == 3 {
            OpKind::IncR16
        } else if m % 2 == 1 && l == 3 {
            OpKind::DecR16
        } else if m == 6 && l == 4 {
            OpKind::IncHl
        } else if l == 4 {
            OpKind::IncR8
        } else if m == 6 && l == 5 {
            OpKind::DecHl
        } else if l == 5 {
            OpKind::DecR8
        } else if m == 6 && l == 6 {
            OpKind::LdHlN8
        } else if l == 6 {
            OpKind::LdR8N8
        } else if m % 2 == 0 && l == 1 {
            OpKind::LdR16N16
        } else if m % 2 == 1 && l == 1 {
            OpKind::AddHlR16
        } else if (m == 0 || m == 2) && l == 2 {
            OpKind::LdR16A
        } else if (m == 1 || m == 3) && l == 2 {
            OpKind::LdAR16
        } else if m == 4 && l == 2 {
            OpKind::LdHliA
        } else if m == 5 && l == 2 {
            OpKind::LdAHli
        } else if m == 6 && l == 2 {
            OpKind::LdHldA
        } else if m == 7 && l == 2 {
            OpKind::LdAHld
        } else if m == 0 && l == 7 {
            OpKind::RlcA
        } else if m == 1 && l == 7 {
            OpKind::RrcA
        } else if m == 2 && l == 7 {
            OpKind::RlA
        } else if m == 3 && l == 7 {
            OpKind::RrA
        } else if m == 4 && l == 7 {
            OpKind::Daa
        } else if m == 5 && l == 7 {
            OpKind::Cpl
        } else if m == 3 && l == 0 {
            OpKind::JrN16
        } else {
            // the rows 4 to 7 of column 0: conditional relative jumps
            OpKind::JrCcN16
        }
    } else if f == 1 {
        if m == 6 && l == 6 {
            OpKind::Halt
        } else if m == 6 {
            OpKind::LdHlR8
        } else if l == 6 {
            OpKind::LdR8Hl
        } else {
            OpKind::LdR8R8
        }
    } else if f == 2 {
        if m == 0 {
            if l == 6 {
                OpKind::AddAHl
            } else {
                OpKind::AddAR8
            }
        } else if m == 1 {
            if l == 6 {
                OpKind::AdcAHl
            } else {
                OpKind::AdcAR8
            }
        } else if m == 2 {
            if l == 6 {
                OpKind::SubAHl
            } else {
                OpKind::SubAR8
            }
        } else if m == 3 {
            if l == 6 {
                OpKind::SbcAHl
            } else {
                OpKind::SbcAR8
            }
        } else if m == 4 {
            if l == 6 {
                OpKind::AndAHl
            } else {
                OpKind::AndAR8
            }
        } else if m == 5 {
            if l == 6 {
                OpKind::XorAHl
            } else {
                OpKind::XorAR8
            }
        } else if m == 6 {
            if l == 6 {
                OpKind::OrAHl
            } else {
                OpKind::OrAR8
            }
        } else {
            if l == 6 {
                OpKind::CpAHl
            } else {
                OpKind::CpAR8
            }
        }
    } else {
        if l == 0 {
            if m < 4 {
                OpKind::RetCc
            } else if m == 4 {
                OpKind::LdhN16A
            } else if m == 5 {
                OpKind::AddSpE8
            } else if m == 6 {
                OpKind::LdhAN16
            } else {
                OpKind::LdHlSpE8
            }
        } else if l == 1 {
            if m % 2 == 0 {
                OpKind::PopR16
            } else if m == 1 {
                OpKind::Ret
            } else if m == 3 {
                OpKind::Reti
            } else if m == 5 {
                OpKind::JpHl
            } else {
                OpKind::LdSpHl
            }
        } else if l == 2 {
            if m < 4 {
                OpKind::JpCcN16
            } else if m == 4 {
                OpKind::LdhCA
            } else if m == 5 {
                OpKind::LdN16A
            } else if m == 6 {
                OpKind::LdhAC
            } else {
                OpKind::LdAN16
            }
        } else if l == 3 {
            if m == 0 {
                OpKind::JpN16
            } else if m == 6 {
                OpKind::Di
            } else if m == 7 {
                OpKind::Ei
            } else {
                OpKind::Illegal
            }
        } else if l == 4 {
            if m < 4 {
                OpKind::CallCcN16
            } else {
                OpKind::Illegal
            }
        } else if l == 5 {
            if m % 2 == 0 {
                OpKind::PushR16
            } else if m == 1 {
                OpKind::CallN16
            } else {
                OpKind::Illegal
            }
        } else if l == 6 {
            if m == 0 {
                OpKind::AddAN8
            } else if m == 1 {
                OpKind::AdcAN8
            } else if m == 2 {
                OpKind::SubAN8
            } else if m == 3 {
                OpKind::SbcAN8
            } else if m == 4 {
                OpKind::AndAN8
            } else if m == 5 {
                OpKind::XorAN8
            } else if m == 6 {
                OpKind::OrAN8
            } else {
                OpKind::CpAN8
            }
        } else {
            OpKind::Rst
        }
    }
}

/// The table behind the prefix byte: rotates, shifts, swap and the
/// single-bit operations.  It is total: every prefixed byte is defined.
pub open spec fn spec_kind_cb(i: u8) -> OpKind {
    let f = first_u3(i);
    let m = middle_u3(i);
    let l = last_u3(i);
    if f == 0 {
        if m == 0 {
            if l == 6 {
                OpKind::RlcHl
            } else {
                OpKind::RlcR8
            }
        } else if m == 1 {
            if l == 6 {
                OpKind::RrcHl
            } else {
                OpKind::RrcR8
            }
        } else if m == 2 {
            if l == 6 {
                OpKind::RlHl
            } else {
                OpKind::RlR8
            }
        } else if m == 3 {
            if l == 6 {
                OpKind::RrHl
            } else {
                OpKind::RrR8
            }
        } else if m == 4 {
            if l == 6 {
                OpKind::SlaHl
            } else {
                OpKind::SlaR8
            }
        } else if m == 5 {
            if l == 6 {
                OpKind::SraHl
            } else {
                OpKind::SraR8
            }
        } else if m == 6 {
            if l == 6 {
                OpKind::SwapHl
            } else {
                OpKind::SwapR8
            }
        } else {
            if l == 6 {
                OpKind::SrlHl
            } else {
                OpKind::SrlR8
            }
        }
    } else if f == 1 {
        if l == 6 {
            OpKind::BitU3Hl
        } else {
            OpKind::BitU3R8
        }
    } else if f == 2 {
        if l == 6 {
            OpKind::ResU3Hl
        } else {
            OpKind::ResU3R8
        }
    } else {
        if l == 6 {
            OpKind::SetU3Hl
        } else {
            OpKind::SetU3R8
        }
    }
}

/// The decoded kind of a fetched operation.
pub open spec fn spec_kind(prefixed: bool, opcode: u8) -> OpKind {
    if prefixed {
        spec_kind_cb(opcode)
    } else {
        spec_kind_base(opcode)
    }
}

/// One fetched operation: the opcode byte and whether it came from the
/// prefixed table.
#[derive(PartialEq, Eq, Debug, Clone, Copy, Structural)]
pub struct Operation {
    pub prefixed: bool,
    pub opcode: u8,
}

impl Operation {
    /// Decode the operation.  The result agrees with the specification
    /// tables above.
    pub fn kind(&self) -> (r: OpKind)
        ensures
            r == spec_kind(self.prefixed, self.opcode),
    {
        let i = self.opcode;
        let f = op_first_u3(i);
        let m = op_middle_u3(i);
        let l = op_last_u3(i);
        if self.prefixed {
            if f == 0 {
                if m == 0 {
                    if l == 6 {
                        OpKind::RlcHl
                    } else {
                        OpKind::RlcR8
                    }
                } else if m == 1 {
                    if l == 6 {
                        OpKind::RrcHl
                    } else {
                        OpKind::RrcR8
                    }
                } else if m == 2 {
                    if l == 6 {
                        OpKind::RlHl
                    } else {
                        OpKind::RlR8
                    }
                } else if m == 3 {
                    if l == 6 {
                        OpKind::RrHl
                    } else {
                        OpKind::RrR8
                    }
                } else if m == 4 {
                    if l == 6 {
                        OpKind::SlaHl
                    } else {
                        OpKind::SlaR8
                    }
                } else if m == 5 {
                    if l == 6 {
                        OpKind::SraHl
                    } else {
                        OpKind::SraR8
                    }
                } else if m == 6 {
                    if l == 6 {
                        OpKind::SwapHl
                    } else {
                        OpKind::SwapR8
                    }
                } else {
                    if l == 6 {
                        OpKind::SrlHl
                    } else {
                        OpKind::SrlR8
                    }
                }
            } else if f == 1 {
                if l == 6 {
                    OpKind::BitU3Hl
                } else {
                    OpKind::BitU3R8
                }
            } else if f == 2 {
                if l == 6 {
                    OpKind::ResU3Hl
                } else {
                    OpKind::ResU3R8
                }
            } else {
                if l == 6 {
                    OpKind::SetU3Hl
                } else {
                    OpKind::SetU3R8
                }
            }
        } else {
            if f == 0 {
                if m == 0 && l == 0 {
                    OpKind::Nop
                } else if m == 2 && l == 0 {
                    OpKind::Stop
                } else if m == 1 && l == 0 {
                    OpKind::LdA16Sp
                } else if m == 6 && l == 7 {
                    OpKind::Scf
                } else if m == 7 && l == 7 {
                    OpKind::Ccf
                } else if m % 2 == 0 && l == 3 {
                    OpKind::IncR16
                } else if m % 2 == 1 && l == 3 {
                    OpKind::DecR16
                } else if m == 6 && l == 4 {
                    OpKind::IncHl
                } else if l == 4 {
                    OpKind::IncR8
                } else if m == 6 && l == 5 {
                    OpKind::DecHl
                } else if l == 5 {
                    OpKind::DecR8
                } else if m == 6 && l == 6 {
                    OpKind::LdHlN8
                } else if l == 6 {
                    OpKind::LdR8N8
                } else if m % 2 == 0 && l == 1 {
                    OpKind::LdR16N16
                } else if m % 2 == 1 && l == 1 {
                    OpKind::AddHlR16
                } else if (m == 0 || m == 2) && l == 2 {
                    OpKind::LdR16A
                } else if (m == 1 || m == 3) && l == 2 {
                    OpKind::LdAR16
                } else if m == 4 && l == 2 {
                    OpKind::LdHliA
                } else if m == 5 && l == 2 {
                    OpKind::LdAHli
                } else if m == 6 && l == 2 {
                    OpKind::LdHldA
                } else if m == 7 && l == 2 {
                    OpKind::LdAHld
                } else if m == 0 && l == 7 {
                    OpKind::RlcA
                } else if m == 1 && l == 7 {
                    OpKind::RrcA
                } else if m == 2 && l == 7 {
                    OpKind::RlA
                } else if m == 3 && l == 7 {
                    OpKind::RrA
                } else if m == 4 && l == 7 {
                    OpKind::Daa
                } else if m == 5 && l == 7 {
                    OpKind::Cpl
                } else if m == 3 && l == 0 {
                    OpKind::JrN16
                } else {
                    OpKind::JrCcN16
                }
            } else if f == 1 {
                if m == 6 && l == 6 {
                    OpKind::Halt
                } else if m == 6 {
                    OpKind::LdHlR8
                } else if l == 6 {
                    OpKind::LdR8Hl
                } else {
                    OpKind::LdR8R8
                }
            } else if f == 2 {
                if m == 0 {
                    if l == 6 {
                        OpKind::AddAHl
                    } else {
                        OpKind::AddAR8
                    }
                } else if m == 1 {
                    if l == 6 {
                        OpKind::AdcAHl
                    } else {
                        OpKind::AdcAR8
                    }
                } else if m == 2 {
                    if l == 6 {
                        OpKind::SubAHl
                    } else {
                        OpKind::SubAR8
                    }
                } else if m == 3 {
                    if l == 6 {
                        OpKind::SbcAHl
                    } else {
                        OpKind::SbcAR8
                    }
                } else if m == 4 {
                    if l == 6 {
                        OpKind::AndAHl
                    } else {
                        OpKind::AndAR8
                    }
                } else if m == 5 {
                    if l == 6 {
                        OpKind::XorAHl
                    } else {
                        OpKind::XorAR8
                    }
                } else if m == 6 {
                    if l == 6 {
                        OpKind::OrAHl
                    } else {
                        OpKind::OrAR8
                    }
                } else {
                    if l == 6 {
                        OpKind::CpAHl
                    } else {
                        OpKind::CpAR8
                    }
                }
            } else {
                if l == 0 {
                    if m < 4 {
                        OpKind::RetCc
                    } else if m == 4 {
                        OpKind::LdhN16A
                    } else if m == 5 {
                        OpKind::AddSpE8
                    } else if m == 6 {
                        OpKind::LdhAN16
                    } else {
                        OpKind::LdHlSpE8
                    }
                } else if l == 1 {
                    if m % 2 == 0 {
                        OpKind::PopR16
                    } else if m == 1 {
                        OpKind::Ret
                    } else if m == 3 {
                        OpKind::Reti
                    } else if m == 5 {
                        OpKind::JpHl
                    } else {
                        OpKind::LdSpHl
                    }
                } else if l == 2 {
                    if m < 4 {
                        OpKind::JpCcN16
                    } else if m == 4 {
                        OpKind::LdhCA
                    } else if m == 5 {
                        OpKind::LdN16A
                    } else if m == 6 {
                        OpKind::LdhAC
                    } else {
                        OpKind::LdAN16
                    }
                } else if l == 3 {
                    if m == 0 {
                        OpKind::JpN16
                    } else if m == 6 {
                        OpKind::Di
                    } else if m == 7 {
                        OpKind::Ei
                    } else {
                        OpKind::Illegal
                    }
                } else if l == 4 {
                    if m < 4 {
                        OpKind::CallCcN16
                    } else {
                        OpKind::Illegal
                    }
                } else if l == 5 {
                    if m % 2 == 0 {
                        OpKind::PushR16
                    } else if m == 1 {
                        OpKind::CallN16
                    } else {
                        OpKind::Illegal
                    }
                } else if l == 6 {
                    if m == 0 {
                        OpKind::AddAN8
                    } else if m == 1 {
                        OpKind::AdcAN8
                    } else if m == 2 {
                        OpKind::SubAN8
                    } else if m == 3 {
                        OpKind::SbcAN8
                    } else if m == 4 {
                        OpKind::AndAN8
                    } else if m == 5 {
                        OpKind::XorAN8
                    } else if m == 6 {
                        OpKind::OrAN8
                    } else {
                        OpKind::CpAN8
                    }
                } else {
                    OpKind::Rst
                }
            }
        }
    }
}


/// The IME latch after one instruction: `EI` arms the delay, `DI` clears the
/// latch, `RETI` sets it at once, and any other instruction promotes an armed
/// delay to set.
pub open spec fn spec_ime_after(pre: Ime, k: OpKind) -> Ime {
    if k == OpKind::Ei {
        Ime::ToSet
    } else if k == OpKind::Di {
        Ime::Off
    } else if k == OpKind::Reti {
        Ime::On
    } else if pre == Ime::ToSet {
        Ime::On
    } else {
        pre
    }
}

/// Whether `execute` will fetch an instruction: always in the running modes,
/// in low power only once an interrupt is pending, never after `STOP`.
pub open spec fn spec_will_fetch(cpu: CPU) -> bool {
    match cpu.mode {
        Mode::NormalSpeed => true,
        Mode::DoubleSpeed => true,
        Mode::LowPower => spec_pending_interrupt(cpu.ram@) is Some,
        Mode::VeryLowPower => false,
    }
}

/// What the Nop executor leaves behind, and its cycle count.
pub open spec fn op_effect_nop(pre: CPU, post: CPU, opcode: u8, cycles: u8) -> bool {
    &&& cycles == 1
    &&& post.registers == (pre.registers)
    &&& ram_eq(pre.ram, post.ram)
}

/// What the Stop executor leaves behind, and its cycle count.
pub open spec fn op_effect_stop(pre: CPU, post: CPU, opcode: u8, cycles: u8) -> bool {
    &&& cycles == 1
    &&& (post.registers == pre.registers)
    &&& (ram_eq(pre.ram, post.ram))
    &&& (post.mode == Mode::VeryLowPower)
    &&& (post.halt_bug_active == pre.halt_bug_active)
}

/// What the LdA16Sp executor leaves behind, and its cycle count.
pub open spec fn op_effect_ld_a16_sp(pre: CPU, post: CPU, opcode: u8, cycles: u8) -> bool {
    &&& cycles == 5
    &&& (post.ram.wf())
    &&& (post.registers == (Registers {
        pc: pre.registers.pc.wrapping_add(2),
        ..pre.registers
    }))
    &&& (post.ram@ == spec_write(
        spec_write(
            pre.ram@,
            be16(
                pre.ram@[pre.registers.pc.wrapping_add(1) as int],
                pre.ram@[pre.registers.pc as int],
            ),
            pre.registers.sp_1,
        ),
        be16(
            pre.ram@[pre.registers.pc.wrapping_add(1) as int],
            pre.ram@[pre.registers.pc as int],
        ).wrapping_add(1),
        pre.registers.sp_0,
    ))
    &&& (post.ram.spec_dma_requested() == (pre.ram.spec_dma_requested() || be16(
        pre.ram@[pre.registers.pc.wrapping_add(1) as int],
        pre.ram@[pre.registers.pc as int],
    ) == DMA_TRIGGER_ADDRESS || be16(
        pre.ram@[pre.registers.pc.wrapping_add(1) as int],
        pre.ram@[pre.registers.pc as int],
    ).wrapping_add(1) == DMA_TRIGGER_ADDRESS))
}

/// What the Scf executor leaves behind, and its cycle count.
pub open spec fn op_effect_scf(pre: CPU, post: CPU, opcode: u8, cycles: u8) -> bool {
    &&& cycles == 1
    &&& post.registers == (Registers {
        f: flags_of(
            spec_get_flag(pre.registers.f, Flag::Zero),
            false,
            false,
            true,
        ),
        ..pre.registers
    })
    &&& ram_eq(pre.ram, post.ram)
}

/// What the Ccf executor leaves behind, and its cycle count.
pub open spec fn op_effect_ccf(pre: CPU, post: CPU, opcode: u8, cycles: u8) -> bool {
    &&& cycles == 1
    &&& post.registers == (Registers {
        f: flags_of(
            spec_get_flag(pre.registers.f, Flag::Zero),
            false,
            false,
            !spec_get_flag(pre.registers.f, Flag::Carry),
        ),
        ..pre.registers
    })
    &&& ram_eq(pre.ram, post.ram)
}

/// What the Halt executor leaves behind, and its cycle count.
pub open spec fn op_effect_halt(pre: CPU, post: CPU, opcode: u8, cycles: u8) -> bool {
    &&& cycles == 1
    &&& (post.registers == pre.registers)
    &&& (ram_eq(pre.ram, post.ram))
    &&& ((pre.ime == Ime::On || spec_pending_interrupt(pre.ram@) is None) ==> {
        &&& post.mode == Mode::LowPower
        &&& post.halt_bug_active == pre.halt_bug_active
    })
    &&& ((pre.ime != Ime::On && spec_pending_interrupt(pre.ram@) is Some) ==> {
        &&& post.mode == pre.mode
        &&& post.halt_bug_active
    })
}

/// What the IncR16 executor leaves behind, and its cycle count.
pub open spec fn op_effect_inc_r16(pre: CPU, post: CPU, opcode: u8, cycles: u8) -> bool {
    &&& cycles == 2
    &&& post.registers == (spec_set_r16(
        pre.registers,
        crate::cpu::instruction::spec_interleaved_r16(opcode, true),
        spec_get_r16(
            pre.registers,
            crate::cpu::instruction::spec_interleaved_r16(opcode, true),
        ).wrapping_add(1),
    ))
    &&& ram_eq(pre.ram, post.ram)
}

/// What the DecR16 executor leaves behind, and its cycle count.
pub open spec fn op_effect_dec_r16(pre: CPU, post: CPU, opcode: u8, cycles: u8) -> bool {
    &&& cycles == 2
    &&& post.registers == (spec_set_r16(
        pre.registers,
        crate::cpu::instruction::spec_interleaved_r16(opcode, false),
        spec_get_r16(
            pre.registers,
            crate::cpu::instruction::spec_interleaved_r16(opcode, false),
        ).wrapping_sub(1),
    ))
    &&& ram_eq(pre.ram, post.ram)
}

/// What the IncHl executor leaves behind, and its cycle count.
pub open spec fn op_effect_inc_hl(pre: CPU, post: CPU, opcode: u8, cycles: u8) -> bool {
    &&& cycles == 3
    &&& post.registers == (Registers {
        f: flags_of(
            pre.ram@[be16(
                pre.registers.h,
                pre.registers.l,
            ) as int].wrapping_add(1) == 0,
            false,
            spec_is_half_carry(
                pre.ram@[be16(
                    pre.registers.h,
                    pre.registers.l,
                ) as int],
                1,
            ),
            spec_get_flag(pre.registers.f, Flag::Carry),
        ),
        ..pre.registers
    })
    &&& ram_wrote(pre.ram, post.ram, be16(pre.registers.h, pre.registers.l), pre.ram@[be16(
        pre.registers.h,
        pre.registers.l,
    ) as int].wrapping_add(1))
}

/// What the IncR8 executor leaves behind, and its cycle count.
pub open spec fn op_effect_inc_r8(pre: CPU, post: CPU, opcode: u8, cycles: u8) -> bool {
    &&& cycles == 1
    &&& post.registers == (Registers {
        f: flags_of(
            spec_get_r8(pre.registers, opcode >> 3).wrapping_add(1) == 0,
            false,
            spec_is_half_carry(spec_get_r8(pre.registers, opcode >> 3), 1),
            spec_get_flag(pre.registers.f, Flag::Carry),
        ),
        ..spec_set_r8(
            pre.registers,
            opcode >> 3,
            spec_get_r8(pre.registers, opcode >> 3).wrapping_add(1),
        )
    })
    &&& ram_eq(pre.ram, post.ram)
}

/// What the DecHl executor leaves behind, and its cycle count.
pub open spec fn op_effect_dec_hl(pre: CPU, post: CPU, opcode: u8, cycles: u8) -> bool {
    &&& cycles == 3
    &&& post.registers == (Registers {
        f: flags_of(
            pre.ram@[be16(
                pre.registers.h,
                pre.registers.l,
            ) as int].wrapping_sub(1) == 0,
            true,
            spec_is_half_borrow(
                pre.ram@[be16(
                    pre.registers.h,
                    pre.registers.l,
                ) as int],
                1,
            ),
            spec_get_flag(pre.registers.f, Flag::Carry),
        ),
        ..pre.registers
    })
    &&& ram_wrote(pre.ram, post.ram, be16(pre.registers.h, pre.registers.l), pre.ram@[be16(
        pre.registers.h,
        pre.registers.l,
    ) as int].wrapping_sub(1))
}

/// What the DecR8 executor leaves behind, and its cycle count.
pub open spec fn op_effect_dec_r8(pre: CPU, post: CPU, opcode: u8, cycles: u8) -> bool {
    &&& cycles == 1
    &&& post.registers == (Registers {
        f: flags_of(
            spec_get_r8(pre.registers, opcode >> 3).wrapping_sub(1) == 0,
            true,
            spec_is_half_borrow(spec_get_r8(pre.registers, opcode >> 3), 1),
            spec_get_flag(pre.registers.f, Flag::Carry),
        ),
        ..spec_set_r8(
            pre.registers,
            opcode >> 3,
            spec_get_r8(pre.registers, opcode >> 3).wrapping_sub(1),
        )
    })
    &&& ram_eq(pre.ram, post.ram)
}

/// What the LdHlN8 executor leaves behind, and its cycle count.
pub open spec fn op_effect_ld_hl_n8(pre: CPU, post: CPU, opcode: u8, cycles: u8) -> bool {
    &&& cycles == 3
    &&& post.registers == (Registers { pc: pre.registers.pc.wrapping_add(1), ..pre.registers })
    &&& ram_wrote(pre.ram, post.ram, be16(pre.registers.h, pre.registers.l), pre.ram@[pre.registers.pc as int])
}

/// What the LdR8N8 executor leaves behind, and its cycle count.
pub open spec fn op_effect_ld_r8_n8(pre: CPU, post: CPU, opcode: u8, cycles: u8) -> bool {
    &&& cycles == 2
    &&& post.registers == (Registers {
        pc: pre.registers.pc.wrapping_add(1),
        ..spec_set_r8(
            pre.registers,
            opcode >> 3,
            pre.ram@[pre.registers.pc as int],
        )
    })
    &&& ram_eq(pre.ram, post.ram)
}

/// What the LdR16N16 executor leaves behind, and its cycle count.
pub open spec fn op_effect_ld_r16_n16(pre: CPU, post: CPU, opcode: u8, cycles: u8) -> bool {
    &&& cycles == 3
    &&& post.registers == (Registers {
        pc: pre.registers.pc.wrapping_add(2),
        ..spec_set_r16(
            pre.registers,
            spec_interleaved_r16(opcode, true),
            be16(
                pre.ram@[pre.registers.pc.wrapping_add(1) as int],
                pre.ram@[pre.registers.pc as int],
            ),
        )
    })
    &&& ram_eq(pre.ram, post.ram)
}

/// What the AddHlR16 executor leaves behind, and its cycle count.
pub open spec fn op_effect_add_hl_r16(pre: CPU, post: CPU, opcode: u8, cycles: u8) -> bool {
    &&& cycles == 2
    &&& post.registers == (Registers {
        f: flags_of(
            spec_get_flag(pre.registers.f, Flag::Zero),
            false,
            (be16(pre.registers.h, pre.registers.l) & 0x0FFF)
                + (spec_get_r16(
                pre.registers,
                crate::cpu::instruction::spec_interleaved_r16(opcode, false),
            ) & 0x0FFF) > 0x0FFF,
            be16(pre.registers.h, pre.registers.l) + spec_get_r16(
                pre.registers,
                crate::cpu::instruction::spec_interleaved_r16(opcode, false),
            ) > 0xFFFF,
        ),
        h: high_byte(
            be16(pre.registers.h, pre.registers.l).wrapping_add(
                spec_get_r16(
                    pre.registers,
                    crate::cpu::instruction::spec_interleaved_r16(opcode, false),
                ),
            ),
        ),
        l: low_byte(
            be16(pre.registers.h, pre.registers.l).wrapping_add(
                spec_get_r16(
                    pre.registers,
                    crate::cpu::instruction::spec_interleaved_r16(opcode, false),
                ),
            ),
        ),
        ..pre.registers
    })
    &&& ram_eq(pre.ram, post.ram)
}

/// What the LdR16A executor leaves behind, and its cycle count.
pub open spec fn op_effect_ld_r16_a(pre: CPU, post: CPU, opcode: u8, cycles: u8) -> bool {
    &&& cycles == 2
    &&& post.registers == (pre.registers)
    &&& ram_wrote(pre.ram, post.ram, spec_get_r16(pre.registers, spec_interleaved_r16(opcode, true)), pre.registers.a)
}

/// What the LdAR16 executor leaves behind, and its cycle count.
pub open spec fn op_effect_ld_a_r16(pre: CPU, post: CPU, opcode: u8, cycles: u8) -> bool {
    &&& cycles == 2
    &&& post.registers == (Registers {
        a: pre.ram@[spec_get_r16(
            pre.registers,
            spec_interleaved_r16(opcode, false),
        ) as int],
        ..pre.registers
    })
    &&& ram_eq(pre.ram, post.ram)
}

/// What the LdHliA executor leaves behind, and its cycle count.
pub open spec fn op_effect_ld_hli_a(pre: CPU, post: CPU, opcode: u8, cycles: u8) -> bool {
    &&& cycles == 2
    &&& post.registers == (Registers {
        h: high_byte(
            be16(pre.registers.h, pre.registers.l).wrapping_add(1),
        ),
        l: low_byte(
            be16(pre.registers.h, pre.registers.l).wrapping_add(1),
        ),
        ..pre.registers
    })
    &&& ram_wrote(pre.ram, post.ram, be16(pre.registers.h, pre.registers.l), pre.registers.a)
}

/// What the LdAHli executor leaves behind, and its cycle count.
pub open spec fn op_effect_ld_a_hli(pre: CPU, post: CPU, opcode: u8, cycles: u8) -> bool {
    &&& cycles == 2
    &&& post.registers == (Registers {
        a: pre.ram@[be16(pre.registers.h, pre.registers.l) as int],
        h: high_byte(
            be16(pre.registers.h, pre.registers.l).wrapping_add(1),
        ),
        l: low_byte(
            be16(pre.registers.h, pre.registers.l).wrapping_add(1),
        ),
        ..pre.registers
    })
    &&& ram_eq(pre.ram, post.ram)
}

/// What the LdHldA executor leaves behind, and its cycle count.
pub open spec fn op_effect_ld_hld_a(pre: CPU, post: CPU, opcode: u8, cycles: u8) -> bool {
    &&& cycles == 2
    &&& post.registers == (Registers {
        h: high_byte(
            be16(pre.registers.h, pre.registers.l).wrapping_sub(1),
        ),
        l: low_byte(
            be16(pre.registers.h, pre.registers.l).wrapping_sub(1),
        ),
        ..pre.registers
    })
    &&& ram_wrote(pre.ram, post.ram, be16(pre.registers.h, pre.registers.l), pre.registers.a)
}

/// What the LdAHld executor leaves behind, and its cycle count.
pub open spec fn op_effect_ld_a_hld(pre: CPU, post: CPU, opcode: u8, cycles: u8) -> bool {
    &&& cycles == 2
    &&& post.registers == (Registers {
        a: pre.ram@[be16(pre.registers.h, pre.registers.l) as int],
        h: high_byte(
            be16(pre.registers.h, pre.registers.l).wrapping_sub(1),
        ),
        l: low_byte(
            be16(pre.registers.h, pre.registers.l).wrapping_sub(1),
        ),
        ..pre.registers
    })
    &&& ram_eq(pre.ram, post.ram)
}

/// What the RlcA executor leaves behind, and its cycle count.
pub open spec fn op_effect_rlc_a(pre: CPU, post: CPU, opcode: u8, cycles: u8) -> bool {
    &&& cycles == 1
    &&& post.registers == (Registers {
        a: rlc_byte(pre.registers.a),
        f: flags_of(false, false, false, left_popped(pre.registers.a)),
        ..pre.registers
    })
    &&& ram_eq(pre.ram, post.ram)
}

/// What the RrcA executor leaves behind, and its cycle count.
pub open spec fn op_effect_rrc_a(pre: CPU, post: CPU, opcode: u8, cycles: u8) -> bool {
    &&& cycles == 1
    &&& post.registers == (Registers {
        a: rrc_byte(pre.registers.a),
        f: flags_of(false, false, false, right_popped(pre.registers.a)),
        ..pre.registers
    })
    &&& ram_eq(pre.ram, post.ram)
}

/// What the RlA executor leaves behind, and its cycle count.
pub open spec fn op_effect_rl_a(pre: CPU, post: CPU, opcode: u8, cycles: u8) -> bool {
    &&& cycles == 1
    &&& post.registers == (Registers {
        a: rl_byte(
            pre.registers.a,
            spec_get_flag(pre.registers.f, Flag::Carry),
        ),
        f: flags_of(false, false, false, left_popped(pre.registers.a)),
        ..pre.registers
    })
    &&& ram_eq(pre.ram, post.ram)
}

/// What the RrA executor leaves behind, and its cycle count.
pub open spec fn op_effect_rr_a(pre: CPU, post: CPU, opcode: u8, cycles: u8) -> bool {
    &&& cycles == 1
    &&& post.registers == (Registers {
        a: rr_byte(
            pre.registers.a,
            spec_get_flag(pre.registers.f, Flag::Carry),
        ),
        f: flags_of(false, false, false, right_popped(pre.registers.a)),
        ..pre.registers
    })
    &&& ram_eq(pre.ram, post.ram)
}

/// What the Daa executor leaves behind, and its cycle count.
pub open spec fn op_effect_daa(pre: CPU, post: CPU, opcode: u8, cycles: u8) -> bool {
    &&& cycles == 1
    &&& post.registers == (Registers {
        a: daa_result(
            pre.registers.a,
            spec_get_flag(pre.registers.f, Flag::Subtraction),
            spec_get_flag(pre.registers.f, Flag::HalfCarry),
            spec_get_flag(pre.registers.f, Flag::Carry),
        ),
        f: flags_of(
            daa_result(
                pre.registers.a,
                spec_get_flag(pre.registers.f, Flag::Subtraction),
                spec_get_flag(pre.registers.f, Flag::HalfCarry),
                spec_get_flag(pre.registers.f, Flag::Carry),
            ) == 0,
            spec_get_flag(pre.registers.f, Flag::Subtraction),
            false,
            daa_carry(
                pre.registers.a,
                spec_get_flag(pre.registers.f, Flag::Subtraction),
                spec_get_flag(pre.registers.f, Flag::Carry),
            ),
        ),
        ..pre.registers
    })
    &&& ram_eq(pre.ram, post.ram)
}

/// What the Cpl executor leaves behind, and its cycle count.
pub open spec fn op_effect_cpl(pre: CPU, post: CPU, opcode: u8, cycles: u8) -> bool {
    &&& cycles == 1
    &&& post.registers == (Registers {
        a: !pre.registers.a,
        f: flags_of(
            spec_get_flag(pre.registers.f, Flag::Zero),
            true,
            true,
            spec_get_flag(pre.registers.f, Flag::Carry),
        ),
        ..pre.registers
    })
    &&& ram_eq(pre.ram, post.ram)
}

/// What the JrN16 executor leaves behind, and its cycle count.
pub open spec fn op_effect_jr_n16(pre: CPU, post: CPU, opcode: u8, cycles: u8) -> bool {
    &&& cycles == 3
    &&& post.registers == (Registers {
        pc: spec_add_signed8(
            pre.registers.pc.wrapping_add(1),
            pre.ram@[pre.registers.pc as int],
        ),
        ..pre.registers
    })
    &&& ram_eq(pre.ram, post.ram)
}

/// What the JrCcN16 executor leaves behind, and its cycle count.
pub open spec fn op_effect_jr_cc_n16(pre: CPU, post: CPU, opcode: u8, cycles: u8) -> bool {
    &&& post.registers == (Registers {
        pc: (if spec_cc(
            pre.registers.f,
            (((opcode >> 3) & 0x07) - 4) as u8,
        ) {
            spec_add_signed8(
                pre.registers.pc.wrapping_add(1),
                pre.ram@[pre.registers.pc as int],
            )
        } else {
            pre.registers.pc.wrapping_add(1)
        }),
        ..pre.registers
    })
    &&& ram_eq(pre.ram, post.ram)
    &&& cycles == (if spec_cc(pre.registers.f, (((opcode >> 3) & 0x07) - 4) as u8) {
        3u8
    } else {
        2u8
    })
}

/// What the LdHlR8 executor leaves behind, and its cycle count.
pub open spec fn op_effect_ld_hl_r8(pre: CPU, post: CPU, opcode: u8, cycles: u8) -> bool {
    &&& cycles == 2
    &&& post.registers == (pre.registers)
    &&& ram_wrote(pre.ram, post.ram, be16(pre.registers.h, pre.registers.l), spec_get_r8(pre.registers, opcode))
}

/// What the LdR8Hl executor leaves behind, and its cycle count.
pub open spec fn op_effect_ld_r8_hl(pre: CPU, post: CPU, opcode: u8, cycles: u8) -> bool {
    &&& cycles == 2
    &&& post.registers == (spec_set_r8(
        pre.registers,
        opcode >> 3,
        pre.ram@[be16(pre.registers.h, pre.registers.l) as int],
    ))
    &&& ram_eq(pre.ram, post.ram)
}

/// What the LdR8R8 executor leaves behind, and its cycle count.
pub open spec fn op_effect_ld_r8_r8(pre: CPU, post: CPU, opcode: u8, cycles: u8) -> bool {
    &&& cycles == 1
    &&& post.registers == (spec_set_r8(
        pre.registers,
        opcode >> 3,
        spec_get_r8(pre.registers, opcode),
    ))
    &&& ram_eq(pre.ram, post.ram)
    &&& (post.registers.f == pre.registers.f)
}

/// What the AddAHl executor leaves behind, and its cycle count.
pub open spec fn op_effect_add_a_hl(pre: CPU, post: CPU, opcode: u8, cycles: u8) -> bool {
    &&& cycles == 2
    &&& post.registers == (Registers {
        a: adc_result(
            pre.registers.a,
            pre.ram@[be16(pre.registers.h, pre.registers.l) as int],
            0,
        ),
        f: adc_flags(
            pre.registers.a,
            pre.ram@[be16(pre.registers.h, pre.registers.l) as int],
            0,
        ),
        ..pre.registers
    })
    &&& ram_eq(pre.ram, post.ram)
}

/// What the AddAR8 executor leaves behind, and its cycle count.
pub open spec fn op_effect_add_a_r8(pre: CPU, post: CPU, opcode: u8, cycles: u8) -> bool {
    &&& cycles == 1
    &&& post.registers == (Registers {
        a: adc_result(
            pre.registers.a,
            spec_get_r8(pre.registers, opcode),
            0,
        ),
        f: adc_flags(
            pre.registers.a,
            spec_get_r8(pre.registers, opcode),
            0,
        ),
        ..pre.registers
    })
    &&& ram_eq(pre.ram, post.ram)
}

/// What the AddAN8 executor leaves behind, and its cycle count.
pub open spec fn op_effect_add_a_n8(pre: CPU, post: CPU, opcode: u8, cycles: u8) -> bool {
    &&& cycles == 2
    &&& post.registers == (Registers {
        a: adc_result(
            pre.registers.a,
            pre.ram@[pre.registers.pc as int],
            0,
        ),
        f: adc_flags(
            pre.registers.a,
            pre.ram@[pre.registers.pc as int],
            0,
        ),
        pc: pre.registers.pc.wrapping_add(1),
        ..pre.registers
    })
    &&& ram_eq(pre.ram, post.ram)
}

/// What the AdcAHl executor leaves behind, and its cycle count.
pub open spec fn op_effect_adc_a_hl(pre: CPU, post: CPU, opcode: u8, cycles: u8) -> bool {
    &&& cycles == 2
    &&& post.registers == (Registers {
        a: adc_result(
            pre.registers.a,
            pre.ram@[be16(pre.registers.h, pre.registers.l) as int],
            carry_bit(pre.registers.f, true),
        ),
        f: adc_flags(
            pre.registers.a,
            pre.ram@[be16(pre.registers.h, pre.registers.l) as int],
            carry_bit(pre.registers.f, true),
        ),
        ..pre.registers
    })
    &&& ram_eq(pre.ram, post.ram)
}

/// What the AdcAR8 executor leaves behind, and its cycle count.
pub open spec fn op_effect_adc_a_r8(pre: CPU, post: CPU, opcode: u8, cycles: u8) -> bool {
    &&& cycles == 1
    &&& post.registers == (Registers {
        a: adc_result(
            pre.registers.a,
            spec_get_r8(pre.registers, opcode),
            carry_bit(pre.registers.f, true),
        ),
        f: adc_flags(
            pre.registers.a,
            spec_get_r8(pre.registers, opcode),
            carry_bit(pre.registers.f, true),
        ),
        ..pre.registers
    })
    &&& ram_eq(pre.ram, post.ram)
}

/// What the AdcAN8 executor leaves behind, and its cycle count.
pub open spec fn op_effect_adc_a_n8(pre: CPU, post: CPU, opcode: u8, cycles: u8) -> bool {
    &&& cycles == 2
    &&& post.registers == (Registers {
        a: adc_result(
            pre.registers.a,
            pre.ram@[pre.registers.pc as int],
            carry_bit(pre.registers.f, true),
        ),
        f: adc_flags(
            pre.registers.a,
            pre.ram@[pre.registers.pc as int],
            carry_bit(pre.registers.f, true),
        ),
        pc: pre.registers.pc.wrapping_add(1),
        ..pre.registers
    })
    &&& ram_eq(pre.ram, post.ram)
}

/// What the SubAHl executor leaves behind, and its cycle count.
pub open spec fn op_effect_sub_a_hl(pre: CPU, post: CPU, opcode: u8, cycles: u8) -> bool {
    &&& cycles == 2
    &&& post.registers == (Registers {
        a: sbc_result(
            pre.registers.a,
            pre.ram@[be16(pre.registers.h, pre.registers.l) as int],
            0,
        ),
        f: sbc_flags(
            pre.registers.a,
            pre.ram@[be16(pre.registers.h, pre.registers.l) as int],
            0,
        ),
        ..pre.registers
    })
    &&& ram_eq(pre.ram, post.ram)
}

/// What the SubAR8 executor leaves behind, and its cycle count.
pub open spec fn op_effect_sub_a_r8(pre: CPU, post: CPU, opcode: u8, cycles: u8) -> bool {
    &&& cycles == 1
    &&& post.registers == (Registers {
        a: sbc_result(
            pre.registers.a,
            spec_get_r8(pre.registers, opcode),
            0,
        ),
        f: sbc_flags(
            pre.registers.a,
            spec_get_r8(pre.registers, opcode),
            0,
        ),
        ..pre.registers
    })
    &&& ram_eq(pre.ram, post.ram)
}

/// What the SubAN8 executor leaves behind, and its cycle count.
pub open spec fn op_effect_sub_a_n8(pre: CPU, post: CPU, opcode: u8, cycles: u8) -> bool {
    &&& cycles == 2
    &&& post.registers == (Registers {
        a: sbc_result(
            pre.registers.a,
            pre.ram@[pre.registers.pc as int],
            0,
        ),
        f: sbc_flags(
            pre.registers.a,
            pre.ram@[pre.registers.pc as int],
            0,
        ),
        pc: pre.registers.pc.wrapping_add(1),
        ..pre.registers
    })
    &&& ram_eq(pre.ram, post.ram)
}

/// What the SbcAHl executor leaves behind, and its cycle count.
pub open spec fn op_effect_sbc_a_hl(pre: CPU, post: CPU, opcode: u8, cycles: u8) -> bool {
    &&& cycles == 2
    &&& post.registers == (Registers {
        a: sbc_result(
            pre.registers.a,
            pre.ram@[be16(pre.registers.h, pre.registers.l) as int],
            carry_bit(pre.registers.f, true),
        ),
        f: sbc_flags(
            pre.registers.a,
            pre.ram@[be16(pre.registers.h, pre.registers.l) as int],
            carry_bit(pre.registers.f, true),
        ),
        ..pre.registers
    })
    &&& ram_eq(pre.ram, post.ram)
}

/// What the SbcAR8 executor leaves behind, and its cycle count.
pub open spec fn op_effect_sbc_a_r8(pre: CPU, post: CPU, opcode: u8, cycles: u8) -> bool {
    &&& cycles == 1
    &&& post.registers == (Registers {
        a: sbc_result(
            pre.registers.a,
            spec_get_r8(pre.registers, opcode),
            carry_bit(pre.registers.f, true),
        ),
        f: sbc_flags(
            pre.registers.a,
            spec_get_r8(pre.registers, opcode),
            carry_bit(pre.registers.f, true),
        ),
        ..pre.registers
    })
    &&& ram_eq(pre.ram, post.ram)
}

/// What the SbcAN8 executor leaves behind, and its cycle count.
pub open spec fn op_effect_sbc_a_n8(pre: CPU, post: CPU, opcode: u8, cycles: u8) -> bool {
    &&& cycles == 2
    &&& post.registers == (Registers {
        a: sbc_result(
            pre.registers.a,
            pre.ram@[pre.registers.pc as int],
            carry_bit(pre.registers.f, true),
        ),
        f: sbc_flags(
            pre.registers.a,
            pre.ram@[pre.registers.pc as int],
            carry_bit(pre.registers.f, true),
        ),
        pc: pre.registers.pc.wrapping_add(1),
        ..pre.registers
    })
    &&& ram_eq(pre.ram, post.ram)
}

/// What the AndAHl executor leaves behind, and its cycle count.
pub open spec fn op_effect_and_a_hl(pre: CPU, post: CPU, opcode: u8, cycles: u8) -> bool {
    &&& cycles == 2
    &&& post.registers == (Registers {
        a: pre.registers.a & pre.ram@[be16(
            pre.registers.h,
            pre.registers.l,
        ) as int],
        f: flags_of(
            pre.registers.a & pre.ram@[be16(
                pre.registers.h,
                pre.registers.l,
            ) as int] == 0,
            false,
            true,
            false,
        ),
        ..pre.registers
    })
    &&& ram_eq(pre.ram, post.ram)
}

/// What the AndAR8 executor leaves behind, and its cycle count.
pub open spec fn op_effect_and_a_r8(pre: CPU, post: CPU, opcode: u8, cycles: u8) -> bool {
    &&& cycles == 1
    &&& post.registers == (Registers {
        a: pre.registers.a & spec_get_r8(pre.registers, opcode),
        f: flags_of(
            pre.registers.a & spec_get_r8(pre.registers, opcode)
                == 0,
            false,
            true,
            false,
        ),
        ..pre.registers
    })
    &&& ram_eq(pre.ram, post.ram)
}

/// What the AndAN8 executor leaves behind, and its cycle count.
pub open spec fn op_effect_and_a_n8(pre: CPU, post: CPU, opcode: u8, cycles: u8) -> bool {
    &&& cycles == 2
    &&& post.registers == (Registers {
        a: pre.registers.a & pre.ram@[pre.registers.pc as int],
        f: flags_of(
            pre.registers.a & pre.ram@[pre.registers.pc as int]
                == 0,
            false,
            true,
            false,
        ),
        pc: pre.registers.pc.wrapping_add(1),
        ..pre.registers
    })
    &&& ram_eq(pre.ram, post.ram)
}

/// What the XorAHl executor leaves behind, and its cycle count.
pub open spec fn op_effect_xor_a_hl(pre: CPU, post: CPU, opcode: u8, cycles: u8) -> bool {
    &&& cycles == 2
    &&& post.registers == (Registers {
        a: pre.registers.a ^ pre.ram@[be16(
            pre.registers.h,
            pre.registers.l,
        ) as int],
        f: flags_of(
            pre.registers.a ^ pre.ram@[be16(
                pre.registers.h,
                pre.registers.l,
            ) as int] == 0,
            false,
            false,
            false,
        ),
        ..pre.registers
    })
    &&& ram_eq(pre.ram, post.ram)
}

/// What the XorAR8 executor leaves behind, and its cycle count.
pub open spec fn op_effect_xor_a_r8(pre: CPU, post: CPU, opcode: u8, cycles: u8) -> bool {
    &&& cycles == 1
    &&& post.registers == (Registers {
        a: pre.registers.a ^ spec_get_r8(pre.registers, opcode),
        f: flags_of(
            pre.registers.a ^ spec_get_r8(pre.registers, opcode)
                == 0,
            false,
            false,
            false,
        ),
        ..pre.registers
    })
    &&& ram_eq(pre.ram, post.ram)
}

/// What the XorAN8 executor leaves behind, and its cycle count.
pub open spec fn op_effect_xor_a_n8(pre: CPU, post: CPU, opcode: u8, cycles: u8) -> bool {
    &&& cycles == 2
    &&& post.registers == (Registers {
        a: pre.registers.a ^ pre.ram@[pre.registers.pc as int],
        f: flags_of(
            pre.registers.a ^ pre.ram@[pre.registers.pc as int]
                == 0,
            false,
            false,
            false,
        ),
        pc: pre.registers.pc.wrapping_add(1),
        ..pre.registers
    })
    &&& ram_eq(pre.ram, post.ram)
}

/// What the OrAHl executor leaves behind, and its cycle count.
pub open spec fn op_effect_or_a_hl(pre: CPU, post: CPU, opcode: u8, cycles: u8) -> bool {
    &&& cycles == 2
    &&& post.registers == (Registers {
        a: pre.registers.a | pre.ram@[be16(
            pre.registers.h,
            pre.registers.l,
        ) as int],
        f: flags_of(
            pre.registers.a | pre.ram@[be16(
                pre.registers.h,
                pre.registers.l,
            ) as int] == 0,
            false,
            false,
            false,
        ),
        ..pre.registers
    })
    &&& ram_eq(pre.ram, post.ram)
}

/// What the OrAR8 executor leaves behind, and its cycle count.
pub open spec fn op_effect_or_a_r8(pre: CPU, post: CPU, opcode: u8, cycles: u8) -> bool {
    &&& cycles == 1
    &&& post.registers == (Registers {
        a: pre.registers.a | spec_get_r8(pre.registers, opcode),
        f: flags_of(
            pre.registers.a | spec_get_r8(pre.registers, opcode)
                == 0,
            false,
            false,
            false,
        ),
        ..pre.registers
    })
    &&& ram_eq(pre.ram, post.ram)
}

/// What the OrAN8 executor leaves behind, and its cycle count.
pub open spec fn op_effect_or_a_n8(pre: CPU, post: CPU, opcode: u8, cycles: u8) -> bool {
    &&& cycles == 2
    &&& post.registers == (Registers {
        a: pre.registers.a | pre.ram@[pre.registers.pc as int],
        f: flags_of(
            pre.registers.a | pre.ram@[pre.registers.pc as int]
                == 0,
            false,
            false,
            false,
        ),
        pc: pre.registers.pc.wrapping_add(1),
        ..pre.registers
    })
    &&& ram_eq(pre.ram, post.ram)
}

/// What the CpAHl executor leaves behind, and its cycle count.
pub open spec fn op_effect_cp_a_hl(pre: CPU, post: CPU, opcode: u8, cycles: u8) -> bool {
    &&& cycles == 2
    &&& post.registers == (Registers {
        f: flags_of(
            pre.registers.a.wrapping_sub(
                pre.ram@[be16(
                    pre.registers.h,
                    pre.registers.l,
                ) as int],
            ) == 0,
            true,
            spec_is_half_borrow(
                pre.registers.a,
                pre.ram@[be16(
                    pre.registers.h,
                    pre.registers.l,
                ) as int],
            ),
            pre.ram@[be16(pre.registers.h, pre.registers.l) as int]
                > pre.registers.a,
        ),
        ..pre.registers
    })
    &&& ram_eq(pre.ram, post.ram)
}

/// What the CpAR8 executor leaves behind, and its cycle count.
pub open spec fn op_effect_cp_a_r8(pre: CPU, post: CPU, opcode: u8, cycles: u8) -> bool {
    &&& cycles == 1
    &&& post.registers == (Registers {
        f: flags_of(
            pre.registers.a.wrapping_sub(
                spec_get_r8(pre.registers, opcode),
            ) == 0,
            true,
            spec_is_half_borrow(
                pre.registers.a,
                spec_get_r8(pre.registers, opcode),
            ),
            spec_get_r8(pre.registers, opcode) > pre.registers.a,
        ),
        ..pre.registers
    })
    &&& ram_eq(pre.ram, post.ram)
}

/// What the CpAN8 executor leaves behind, and its cycle count.
pub open spec fn op_effect_cp_a_n8(pre: CPU, post: CPU, opcode: u8, cycles: u8) -> bool {
    &&& cycles == 2
    &&& post.registers == (Registers {
        f: flags_of(
            pre.registers.a.wrapping_sub(
                pre.ram@[pre.registers.pc as int],
            ) == 0,
            true,
            spec_is_half_borrow(
                pre.registers.a,
                pre.ram@[pre.registers.pc as int],
            ),
            pre.ram@[pre.registers.pc as int] > pre.registers.a,
        ),
        pc: pre.registers.pc.wrapping_add(1),
        ..pre.registers
    })
    &&& ram_eq(pre.ram, post.ram)
}

/// What the JpN16 executor leaves behind, and its cycle count.
pub open spec fn op_effect_jp_n16(pre: CPU, post: CPU, opcode: u8, cycles: u8) -> bool {
    &&& cycles == 4
    &&& post.registers == (Registers {
        pc: be16(
            pre.ram@[pre.registers.pc.wrapping_add(1) as int],
            pre.ram@[pre.registers.pc as int],
        ),
        ..pre.registers
    })
    &&& ram_eq(pre.ram, post.ram)
}

/// What the JpCcN16 executor leaves behind, and its cycle count.
pub open spec fn op_effect_jp_cc_n16(pre: CPU, post: CPU, opcode: u8, cycles: u8) -> bool {
    &&& post.registers == (Registers {
        pc: (if spec_cc(pre.registers.f, (opcode >> 3) & 0x07) {
            be16(
                pre.ram@[pre.registers.pc.wrapping_add(1) as int],
                pre.ram@[pre.registers.pc as int],
            )
        } else {
            pre.registers.pc.wrapping_add(2)
        }),
        ..pre.registers
    })
    &&& ram_eq(pre.ram, post.ram)
    &&& cycles == (if spec_cc(pre.registers.f, (opcode >> 3) & 0x07) {
        4u8
    } else {
        3u8
    })
}

/// What the JpHl executor leaves behind, and its cycle count.
pub open spec fn op_effect_jp_hl(pre: CPU, post: CPU, opcode: u8, cycles: u8) -> bool {
    &&& cycles == 1
    &&& post.registers == (Registers {
        pc: be16(pre.registers.h, pre.registers.l),
        ..pre.registers
    })
    &&& ram_eq(pre.ram, post.ram)
}

/// What the CallN16 executor leaves behind, and its cycle count.
pub open spec fn op_effect_call_n16(pre: CPU, post: CPU, opcode: u8, cycles: u8) -> bool {
    &&& cycles == 6
    &&& (post.ram.wf())
    &&& (post.registers == (Registers {
        pc: be16(
            pre.ram@[pre.registers.pc.wrapping_add(1) as int],
            pre.ram@[pre.registers.pc as int],
        ),
        sp_0: high_byte(
            be16(pre.registers.sp_0, pre.registers.sp_1).wrapping_sub(2),
        ),
        sp_1: low_byte(
            be16(pre.registers.sp_0, pre.registers.sp_1).wrapping_sub(2),
        ),
        ..pre.registers
    }))
    &&& (post.ram@ == spec_push16_data(
        pre.ram@,
        be16(pre.registers.sp_0, pre.registers.sp_1),
        pre.registers.pc.wrapping_add(2),
    ))
    &&& (post.ram.spec_dma_requested() == (pre.ram.spec_dma_requested() || be16(
        pre.registers.sp_0,
        pre.registers.sp_1,
    ).wrapping_sub(2) == DMA_TRIGGER_ADDRESS || be16(
        pre.registers.sp_0,
        pre.registers.sp_1,
    ).wrapping_sub(2).wrapping_add(1) == DMA_TRIGGER_ADDRESS))
}

/// What the CallCcN16 executor leaves behind, and its cycle count.
pub open spec fn op_effect_call_cc_n16(pre: CPU, post: CPU, opcode: u8, cycles: u8) -> bool {
    &&& (post.ram.wf())
    &&& cycles == (if spec_cc(pre.registers.f, (opcode >> 3) & 0x07) {
        6u8
    } else {
        3u8
    })
    &&& (spec_cc(pre.registers.f, (opcode >> 3) & 0x07) ==> {
        &&& post.registers == (Registers {
            pc: be16(
                pre.ram@[pre.registers.pc.wrapping_add(1) as int],
                pre.ram@[pre.registers.pc as int],
            ),
            sp_0: high_byte(
                be16(pre.registers.sp_0, pre.registers.sp_1).wrapping_sub(2),
            ),
            sp_1: low_byte(
                be16(pre.registers.sp_0, pre.registers.sp_1).wrapping_sub(2),
            ),
            ..pre.registers
        })
        &&& post.ram@ == spec_push16_data(
            pre.ram@,
            be16(pre.registers.sp_0, pre.registers.sp_1),
            pre.registers.pc.wrapping_add(2),
        )
        &&& post.ram.spec_dma_requested() == (pre.ram.spec_dma_requested()
            || be16(pre.registers.sp_0, pre.registers.sp_1).wrapping_sub(2)
            == DMA_TRIGGER_ADDRESS || be16(
            pre.registers.sp_0,
            pre.registers.sp_1,
        ).wrapping_sub(2).wrapping_add(1) == DMA_TRIGGER_ADDRESS)
    })
    &&& (!spec_cc(pre.registers.f, (opcode >> 3) & 0x07) ==> {
        &&& post.registers == (Registers {
            pc: pre.registers.pc.wrapping_add(2),
            ..pre.registers
        })
        &&& ram_eq(pre.ram, post.ram)
    })
}

/// What the RetCc executor leaves behind, and its cycle count.
pub open spec fn op_effect_ret_cc(pre: CPU, post: CPU, opcode: u8, cycles: u8) -> bool {
    &&& cycles == (if spec_cc(pre.registers.f, (opcode >> 3) & 0x07) {
        5u8
    } else {
        2u8
    })
    &&& post.registers == ((if spec_cc(pre.registers.f, (opcode >> 3) & 0x07) {
        Registers {
            pc: spec_pop16_value(
                pre.ram@,
                be16(pre.registers.sp_0, pre.registers.sp_1),
            ),
            sp_0: high_byte(
                be16(pre.registers.sp_0, pre.registers.sp_1).wrapping_add(
                    2,
                ),
            ),
            sp_1: low_byte(
                be16(pre.registers.sp_0, pre.registers.sp_1).wrapping_add(
                    2,
                ),
            ),
            ..pre.registers
        }
    } else {
        pre.registers
    }))
    &&& ram_eq(pre.ram, post.ram)
}

/// What the Ret executor leaves behind, and its cycle count.
pub open spec fn op_effect_ret(pre: CPU, post: CPU, opcode: u8, cycles: u8) -> bool {
    &&& cycles == 4
    &&& post.registers == (Registers {
        pc: spec_pop16_value(
            pre.ram@,
            be16(pre.registers.sp_0, pre.registers.sp_1),
        ),
        sp_0: high_byte(
            be16(pre.registers.sp_0, pre.registers.sp_1).wrapping_add(2),
        ),
        sp_1: low_byte(
            be16(pre.registers.sp_0, pre.registers.sp_1).wrapping_add(2),
        ),
        ..pre.registers
    })
    &&& ram_eq(pre.ram, post.ram)
}

/// What the Reti executor leaves behind, and its cycle count.
pub open spec fn op_effect_reti(pre: CPU, post: CPU, opcode: u8, cycles: u8) -> bool {
    &&& cycles == 4
    &&& (ram_eq(pre.ram, post.ram))
    &&& (post.mode == pre.mode)
    &&& (post.halt_bug_active == pre.halt_bug_active)
    &&& (post.registers == (Registers {
        pc: spec_pop16_value(
            pre.ram@,
            be16(pre.registers.sp_0, pre.registers.sp_1),
        ),
        sp_0: high_byte(
            be16(pre.registers.sp_0, pre.registers.sp_1).wrapping_add(2),
        ),
        sp_1: low_byte(
            be16(pre.registers.sp_0, pre.registers.sp_1).wrapping_add(2),
        ),
        ..pre.registers
    }))
}

/// What the Rst executor leaves behind, and its cycle count.
pub open spec fn op_effect_rst(pre: CPU, post: CPU, opcode: u8, cycles: u8) -> bool {
    &&& cycles == 4
    &&& (post.ram.wf())
    &&& (post.registers == (Registers {
        pc: spec_rst_address((opcode >> 3) & 0x07),
        sp_0: high_byte(
            be16(pre.registers.sp_0, pre.registers.sp_1).wrapping_sub(2),
        ),
        sp_1: low_byte(
            be16(pre.registers.sp_0, pre.registers.sp_1).wrapping_sub(2),
        ),
        ..pre.registers
    }))
    &&& (post.ram@ == spec_push16_data(
        pre.ram@,
        be16(pre.registers.sp_0, pre.registers.sp_1),
        pre.registers.pc,
    ))
    &&& (post.ram.spec_dma_requested() == (pre.ram.spec_dma_requested() || be16(
        pre.registers.sp_0,
        pre.registers.sp_1,
    ).wrapping_sub(2) == DMA_TRIGGER_ADDRESS || be16(
        pre.registers.sp_0,
        pre.registers.sp_1,
    ).wrapping_sub(2).wrapping_add(1) == DMA_TRIGGER_ADDRESS))
}

/// What the PushR16 executor leaves behind, and its cycle count.
pub open spec fn op_effect_push_r16(pre: CPU, post: CPU, opcode: u8, cycles: u8) -> bool {
    &&& cycles == 4
    &&& (post.ram.wf())
    &&& (post.registers == (Registers {
        sp_0: high_byte(
            be16(pre.registers.sp_0, pre.registers.sp_1).wrapping_sub(2),
        ),
        sp_1: low_byte(
            be16(pre.registers.sp_0, pre.registers.sp_1).wrapping_sub(2),
        ),
        ..pre.registers
    }))
    &&& (post.ram@ == spec_push16_data(
        pre.ram@,
        be16(pre.registers.sp_0, pre.registers.sp_1),
        spec_push_value(pre.registers, spec_interleaved_r16(opcode, true)),
    ))
    &&& (post.ram.spec_dma_requested() == (pre.ram.spec_dma_requested() || be16(
        pre.registers.sp_0,
        pre.registers.sp_1,
    ).wrapping_sub(2) == DMA_TRIGGER_ADDRESS || be16(
        pre.registers.sp_0,
        pre.registers.sp_1,
    ).wrapping_sub(2).wrapping_add(1) == DMA_TRIGGER_ADDRESS))
}

/// What the PopR16 executor leaves behind, and its cycle count.
pub open spec fn op_effect_pop_r16(pre: CPU, post: CPU, opcode: u8, cycles: u8) -> bool {
    &&& cycles == 3
    &&& post.registers == ((if spec_interleaved_r16(opcode, true) == 3 {
        Registers {
            a: high_byte(
                spec_pop16_value(
                    pre.ram@,
                    be16(pre.registers.sp_0, pre.registers.sp_1),
                ),
            ),
            f: low_byte(
                spec_pop16_value(
                    pre.ram@,
                    be16(pre.registers.sp_0, pre.registers.sp_1),
                ),
            ) & 0xF0,
            sp_0: high_byte(
                be16(pre.registers.sp_0, pre.registers.sp_1).wrapping_add(
                    2,
                ),
            ),
            sp_1: low_byte(
                be16(pre.registers.sp_0, pre.registers.sp_1).wrapping_add(
                    2,
                ),
            ),
            ..pre.registers
        }
    } else {
        Registers {
            sp_0: high_byte(
                be16(pre.registers.sp_0, pre.registers.sp_1).wrapping_add(
                    2,
                ),
            ),
            sp_1: low_byte(
                be16(pre.registers.sp_0, pre.registers.sp_1).wrapping_add(
                    2,
                ),
            ),
            ..spec_set_r16(
                pre.registers,
                spec_interleaved_r16(opcode, true),
                spec_pop16_value(
                    pre.ram@,
                    be16(pre.registers.sp_0, pre.registers.sp_1),
                ),
            )
        }
    }))
    &&& ram_eq(pre.ram, post.ram)
}

/// What the AddSpE8 executor leaves behind, and its cycle count.
pub open spec fn op_effect_add_sp_e8(pre: CPU, post: CPU, opcode: u8, cycles: u8) -> bool {
    &&& cycles == 4
    &&& post.registers == (Registers {
        f: flags_of(
            false,
            false,
            spec_is_half_carry(
                low_byte(be16(pre.registers.sp_0, pre.registers.sp_1)),
                pre.ram@[pre.registers.pc as int],
            ),
            low_byte(be16(pre.registers.sp_0, pre.registers.sp_1))
                + pre.ram@[pre.registers.pc as int] > 255,
        ),
        sp_0: high_byte(
            spec_add_signed8(
                be16(pre.registers.sp_0, pre.registers.sp_1),
                pre.ram@[pre.registers.pc as int],
            ),
        ),
        sp_1: low_byte(
            spec_add_signed8(
                be16(pre.registers.sp_0, pre.registers.sp_1),
                pre.ram@[pre.registers.pc as int],
            ),
        ),
        pc: pre.registers.pc.wrapping_add(1),
        ..pre.registers
    })
    &&& ram_eq(pre.ram, post.ram)
}

/// What the LdHlSpE8 executor leaves behind, and its cycle count.
pub open spec fn op_effect_ld_hl_sp_e8(pre: CPU, post: CPU, opcode: u8, cycles: u8) -> bool {
    &&& cycles == 3
    &&& post.registers == (Registers {
        f: flags_of(
            false,
            false,
            spec_is_half_carry(
                low_byte(be16(pre.registers.sp_0, pre.registers.sp_1)),
                pre.ram@[pre.registers.pc as int],
            ),
            low_byte(be16(pre.registers.sp_0, pre.registers.sp_1))
                + pre.ram@[pre.registers.pc as int] > 255,
        ),
        h: high_byte(
            spec_add_signed8(
                be16(pre.registers.sp_0, pre.registers.sp_1),
                pre.ram@[pre.registers.pc as int],
            ),
        ),
        l: low_byte(
            spec_add_signed8(
                be16(pre.registers.sp_0, pre.registers.sp_1),
                pre.ram@[pre.registers.pc as int],
            ),
        ),
        pc: pre.registers.pc.wrapping_add(1),
        ..pre.registers
    })
    &&& ram_eq(pre.ram, post.ram)
}

/// What the LdSpHl executor leaves behind, and its cycle count.
pub open spec fn op_effect_ld_sp_hl(pre: CPU, post: CPU, opcode: u8, cycles: u8) -> bool {
    &&& cycles == 2
    &&& post.registers == (Registers {
        sp_0: pre.registers.h,
        sp_1: pre.registers.l,
        ..pre.registers
    })
    &&& ram_eq(pre.ram, post.ram)
}

/// What the Di executor leaves behind, and its cycle count.
pub open spec fn op_effect_di(pre: CPU, post: CPU, opcode: u8, cycles: u8) -> bool {
    &&& cycles == 1
    &&& (post.registers == pre.registers)
    &&& (ram_eq(pre.ram, post.ram))
    &&& (post.mode == pre.mode)
    &&& (post.halt_bug_active == pre.halt_bug_active)
}

/// What the Ei executor leaves behind, and its cycle count.
pub open spec fn op_effect_ei(pre: CPU, post: CPU, opcode: u8, cycles: u8) -> bool {
    &&& cycles == 1
    &&& (post.registers == pre.registers)
    &&& (ram_eq(pre.ram, post.ram))
    &&& (post.mode == pre.mode)
    &&& (post.halt_bug_active == pre.halt_bug_active)
}

/// What the LdhN16A executor leaves behind, and its cycle count.
pub open spec fn op_effect_ldh_n16_a(pre: CPU, post: CPU, opcode: u8, cycles: u8) -> bool {
    &&& cycles == 3
    &&& post.registers == (Registers { pc: pre.registers.pc.wrapping_add(1), ..pre.registers })
    &&& ram_wrote(pre.ram, post.ram, (0xFF00 + pre.ram@[pre.registers.pc as int]) as u16, pre.registers.a)
}

/// What the LdhCA executor leaves behind, and its cycle count.
pub open spec fn op_effect_ldh_c_a(pre: CPU, post: CPU, opcode: u8, cycles: u8) -> bool {
    &&& cycles == 2
    &&& post.registers == (pre.registers)
    &&& ram_wrote(pre.ram, post.ram, (0xFF00 + pre.registers.c) as u16, pre.registers.a)
}

/// What the LdN16A executor leaves behind, and its cycle count.
pub open spec fn op_effect_ld_n16_a(pre: CPU, post: CPU, opcode: u8, cycles: u8) -> bool {
    &&& cycles == 4
    &&& post.registers == (Registers { pc: pre.registers.pc.wrapping_add(2), ..pre.registers })
    &&& ram_wrote(pre.ram, post.ram, be16(
        pre.ram@[pre.registers.pc.wrapping_add(1) as int],
        pre.ram@[pre.registers.pc as int],
    ), pre.registers.a)
}

/// What the LdhAN16 executor leaves behind, and its cycle count.
pub open spec fn op_effect_ldh_a_n16(pre: CPU, post: CPU, opcode: u8, cycles: u8) -> bool {
    &&& cycles == 3
    &&& post.registers == (Registers {
        a: pre.ram@[0xFF00 + pre.ram@[pre.registers.pc as int]],
        pc: pre.registers.pc.wrapping_add(1),
        ..pre.registers
    })
    &&& ram_eq(pre.ram, post.ram)
}

/// What the LdhAC executor leaves behind, and its cycle count.
pub open spec fn op_effect_ldh_a_c(pre: CPU, post: CPU, opcode: u8, cycles: u8) -> bool {
    &&& cycles == 2
    &&& post.registers == (Registers {
        a: pre.ram@[0xFF00 + pre.registers.c],
        ..pre.registers
    })
    &&& ram_eq(pre.ram, post.ram)
}

/// What the LdAN16 executor leaves behind, and its cycle count.
pub open spec fn op_effect_ld_a_n16(pre: CPU, post: CPU, opcode: u8, cycles: u8) -> bool {
    &&& cycles == 4
    &&& post.registers == (Registers {
        a: pre.ram@[be16(
            pre.ram@[pre.registers.pc.wrapping_add(1) as int],
            pre.ram@[pre.registers.pc as int],
        ) as int],
        pc: pre.registers.pc.wrapping_add(2),
        ..pre.registers
    })
    &&& ram_eq(pre.ram, post.ram)
}

/// What the RlcR8 executor leaves behind, and its cycle count.
pub open spec fn op_effect_rlc_r8(pre: CPU, post: CPU, opcode: u8, cycles: u8) -> bool {
    &&& cycles == 2
    &&& post.registers == (Registers {
        f: rotate_flags(
            rlc_byte(spec_get_r8(pre.registers, opcode)),
            left_popped(spec_get_r8(pre.registers, opcode)),
        ),
        ..spec_set_r8(
            pre.registers,
            opcode,
            rlc_byte(spec_get_r8(pre.registers, opcode)),
        )
    })
    &&& ram_eq(pre.ram, post.ram)
}

/// What the RlcHl executor leaves behind, and its cycle count.
pub open spec fn op_effect_rlc_hl(pre: CPU, post: CPU, opcode: u8, cycles: u8) -> bool {
    &&& cycles == 4
    &&& post.registers == (Registers {
        f: rotate_flags(
            rlc_byte(
                pre.ram@[be16(
                    pre.registers.h,
                    pre.registers.l,
                ) as int],
            ),
            left_popped(
                pre.ram@[be16(
                    pre.registers.h,
                    pre.registers.l,
                ) as int],
            ),
        ),
        ..pre.registers
    })
    &&& ram_wrote(pre.ram, post.ram, be16(pre.registers.h, pre.registers.l), rlc_byte(pre.ram@[be16(pre.registers.h, pre.registers.l) as int]))
}

/// What the RrcR8 executor leaves behind, and its cycle count.
pub open spec fn op_effect_rrc_r8(pre: CPU, post: CPU, opcode: u8, cycles: u8) -> bool {
    &&& cycles == 2
    &&& post.registers == (Registers {
        f: rotate_flags(
            rrc_byte(spec_get_r8(pre.registers, opcode)),
            right_popped(spec_get_r8(pre.registers, opcode)),
        ),
        ..spec_set_r8(
            pre.registers,
            opcode,
            rrc_byte(spec_get_r8(pre.registers, opcode)),
        )
    })
    &&& ram_eq(pre.ram, post.ram)
}

/// What the RrcHl executor leaves behind, and its cycle count.
pub open spec fn op_effect_rrc_hl(pre: CPU, post: CPU, opcode: u8, cycles: u8) -> bool {
    &&& cycles == 4
    &&& post.registers == (Registers {
        f: rotate_flags(
            rrc_byte(
                pre.ram@[be16(
                    pre.registers.h,
                    pre.registers.l,
                ) as int],
            ),
            right_popped(
                pre.ram@[be16(
                    pre.registers.h,
                    pre.registers.l,
                ) as int],
            ),
        ),
        ..pre.registers
    })
    &&& ram_wrote(pre.ram, post.ram, be16(pre.registers.h, pre.registers.l), rrc_byte(pre.ram@[be16(pre.registers.h, pre.registers.l) as int]))
}

/// What the RlR8 executor leaves behind, and its cycle count.
pub open spec fn op_effect_rl_r8(pre: CPU, post: CPU, opcode: u8, cycles: u8) -> bool {
    &&& cycles == 2
    &&& post.registers == (Registers {
        f: rotate_flags(
            rl_byte(
                spec_get_r8(pre.registers, opcode),
                spec_get_flag(pre.registers.f, Flag::Carry),
            ),
            left_popped(spec_get_r8(pre.registers, opcode)),
        ),
        ..spec_set_r8(
            pre.registers,
            opcode,
            rl_byte(
                spec_get_r8(pre.registers, opcode),
                spec_get_flag(pre.registers.f, Flag::Carry),
            ),
        )
    })
    &&& ram_eq(pre.ram, post.ram)
}

/// What the RlHl executor leaves behind, and its cycle count.
pub open spec fn op_effect_rl_hl(pre: CPU, post: CPU, opcode: u8, cycles: u8) -> bool {
    &&& cycles == 4
    &&& post.registers == (Registers {
        f: rotate_flags(
            rl_byte(
                pre.ram@[be16(
                    pre.registers.h,
                    pre.registers.l,
                ) as int],
                spec_get_flag(pre.registers.f, Flag::Carry),
            ),
            left_popped(
                pre.ram@[be16(
                    pre.registers.h,
                    pre.registers.l,
                ) as int],
            ),
        ),
        ..pre.registers
    })
    &&& ram_wrote(pre.ram, post.ram, be16(pre.registers.h, pre.registers.l), rl_byte(
        pre.ram@[be16(pre.registers.h, pre.registers.l) as int],
        spec_get_flag(pre.registers.f, Flag::Carry),
    ))
}

/// What the RrR8 executor leaves behind, and its cycle count.
pub open spec fn op_effect_rr_r8(pre: CPU, post: CPU, opcode: u8, cycles: u8) -> bool {
    &&& cycles == 2
    &&& post.registers == (Registers {
        f: rotate_flags(
            rr_byte(
                spec_get_r8(pre.registers, opcode),
                spec_get_flag(pre.registers.f, Flag::Carry),
            ),
            right_popped(spec_get_r8(pre.registers, opcode)),
        ),
        ..spec_set_r8(
            pre.registers,
            opcode,
            rr_byte(
                spec_get_r8(pre.registers, opcode),
                spec_get_flag(pre.registers.f, Flag::Carry),
            ),
        )
    })
    &&& ram_eq(pre.ram, post.ram)
}

/// What the RrHl executor leaves behind, and its cycle count.
pub open spec fn op_effect_rr_hl(pre: CPU, post: CPU, opcode: u8, cycles: u8) -> bool {
    &&& cycles == 4
    &&& post.registers == (Registers {
        f: rotate_flags(
            rr_byte(
                pre.ram@[be16(
                    pre.registers.h,
                    pre.registers.l,
                ) as int],
                spec_get_flag(pre.registers.f, Flag::Carry),
            ),
            right_popped(
                pre.ram@[be16(
                    pre.registers.h,
                    pre.registers.l,
                ) as int],
            ),
        ),
        ..pre.registers
    })
    &&& ram_wrote(pre.ram, post.ram, be16(pre.registers.h, pre.registers.l), rr_byte(
        pre.ram@[be16(pre.registers.h, pre.registers.l) as int],
        spec_get_flag(pre.registers.f, Flag::Carry),
    ))
}

/// What the SlaR8 executor leaves behind, and its cycle count.
pub open spec fn op_effect_sla_r8(pre: CPU, post: CPU, opcode: u8, cycles: u8) -> bool {
    &&& cycles == 2
    &&& post.registers == (Registers {
        f: rotate_flags(
            sla_byte(spec_get_r8(pre.registers, opcode)),
            left_popped(spec_get_r8(pre.registers, opcode)),
        ),
        ..spec_set_r8(
            pre.registers,
            opcode,
            sla_byte(spec_get_r8(pre.registers, opcode)),
        )
    })
    &&& ram_eq(pre.ram, post.ram)
}

/// What the SlaHl executor leaves behind, and its cycle count.
pub open spec fn op_effect_sla_hl(pre: CPU, post: CPU, opcode: u8, cycles: u8) -> bool {
    &&& cycles == 4
    &&& post.registers == (Registers {
        f: rotate_flags(
            sla_byte(
                pre.ram@[be16(
                    pre.registers.h,
                    pre.registers.l,
                ) as int],
            ),
            left_popped(
                pre.ram@[be16(
                    pre.registers.h,
                    pre.registers.l,
                ) as int],
            ),
        ),
        ..pre.registers
    })
    &&& ram_wrote(pre.ram, post.ram, be16(pre.registers.h, pre.registers.l), sla_byte(pre.ram@[be16(pre.registers.h, pre.registers.l) as int]))
}

/// What the SraR8 executor leaves behind, and its cycle count.
pub open spec fn op_effect_sra_r8(pre: CPU, post: CPU, opcode: u8, cycles: u8) -> bool {
    &&& cycles == 2
    &&& post.registers == (Registers {
        f: rotate_flags(
            srl_byte(spec_get_r8(pre.registers, opcode)),
            right_popped(spec_get_r8(pre.registers, opcode)),
        ),
        ..spec_set_r8(
            pre.registers,
            opcode,
            sra_byte(spec_get_r8(pre.registers, opcode)),
        )
    })
    &&& ram_eq(pre.ram, post.ram)
}

/// What the SraHl executor leaves behind, and its cycle count.
pub open spec fn op_effect_sra_hl(pre: CPU, post: CPU, opcode: u8, cycles: u8) -> bool {
    &&& cycles == 4
    &&& post.registers == (Registers {
        f: rotate_flags(
            srl_byte(
                pre.ram@[be16(
                    pre.registers.h,
                    pre.registers.l,
                ) as int],
            ),
            right_popped(
                pre.ram@[be16(
                    pre.registers.h,
                    pre.registers.l,
                ) as int],
            ),
        ),
        ..pre.registers
    })
    &&& ram_wrote(pre.ram, post.ram, be16(pre.registers.h, pre.registers.l), sra_byte(pre.ram@[be16(pre.registers.h, pre.registers.l) as int]))
}

/// What the SwapR8 executor leaves behind, and its cycle count.
pub open spec fn op_effect_swap_r8(pre: CPU, post: CPU, opcode: u8, cycles: u8) -> bool {
    &&& cycles == 2
    &&& post.registers == (Registers {
        f: flags_of(
            swap_byte(spec_get_r8(pre.registers, opcode)) == 0,
            false,
            false,
            false,
        ),
        ..spec_set_r8(
            pre.registers,
            opcode,
            swap_byte(spec_get_r8(pre.registers, opcode)),
        )
    })
    &&& ram_eq(pre.ram, post.ram)
}

/// What the SwapHl executor leaves behind, and its cycle count.
pub open spec fn op_effect_swap_hl(pre: CPU, post: CPU, opcode: u8, cycles: u8) -> bool {
    &&& cycles == 4
    &&& post.registers == (Registers {
        f: flags_of(
            swap_byte(
                pre.ram@[be16(
                    pre.registers.h,
                    pre.registers.l,
                ) as int],
            ) == 0,
            false,
            false,
            false,
        ),
        ..pre.registers
    })
    &&& ram_wrote(pre.ram, post.ram, be16(pre.registers.h, pre.registers.l), swap_byte(
        pre.ram@[be16(pre.registers.h, pre.registers.l) as int],
    ))
}

/// What the SrlR8 executor leaves behind, and its cycle count.
pub open spec fn op_effect_srl_r8(pre: CPU, post: CPU, opcode: u8, cycles: u8) -> bool {
    &&& cycles == 2
    &&& post.registers == (Registers {
        f: rotate_flags(
            srl_byte(spec_get_r8(pre.registers, opcode)),
            right_popped(spec_get_r8(pre.registers, opcode)),
        ),
        ..spec_set_r8(
            pre.registers,
            opcode,
            srl_byte(spec_get_r8(pre.registers, opcode)),
        )
    })
    &&& ram_eq(pre.ram, post.ram)
}

/// What the SrlHl executor leaves behind, and its cycle count.
pub open spec fn op_effect_srl_hl(pre: CPU, post: CPU, opcode: u8, cycles: u8) -> bool {
    &&& cycles == 4
    &&& post.registers == (Registers {
        f: rotate_flags(
            srl_byte(
                pre.ram@[be16(
                    pre.registers.h,
                    pre.registers.l,
                ) as int],
            ),
            right_popped(
                pre.ram@[be16(
                    pre.registers.h,
                    pre.registers.l,
                ) as int],
            ),
        ),
        ..pre.registers
    })
    &&& ram_wrote(pre.ram, post.ram, be16(pre.registers.h, pre.registers.l), srl_byte(pre.ram@[be16(pre.registers.h, pre.registers.l) as int]))
}

/// What the BitU3R8 executor leaves behind, and its cycle count.
pub open spec fn op_effect_bit_u3_r8(pre: CPU, post: CPU, opcode: u8, cycles: u8) -> bool {
    &&& cycles == 2
    &&& post.registers == (Registers {
        f: flags_of(
            bit_of(
                spec_get_r8(pre.registers, opcode),
                (opcode >> 3) & 0x07,
            ) == 0,
            false,
            true,
            spec_get_flag(pre.registers.f, Flag::Carry),
        ),
        ..pre.registers
    })
    &&& ram_eq(pre.ram, post.ram)
}

/// What the BitU3Hl executor leaves behind, and its cycle count.
pub open spec fn op_effect_bit_u3_hl(pre: CPU, post: CPU, opcode: u8, cycles: u8) -> bool {
    &&& cycles == 3
    &&& post.registers == (Registers {
        f: flags_of(
            bit_of(
                pre.ram@[be16(
                    pre.registers.h,
                    pre.registers.l,
                ) as int],
                (opcode >> 3) & 0x07,
            ) == 0,
            false,
            true,
            spec_get_flag(pre.registers.f, Flag::Carry),
        ),
        ..pre.registers
    })
    &&& ram_eq(pre.ram, post.ram)
}

/// What the ResU3R8 executor leaves behind, and its cycle count.
pub open spec fn op_effect_res_u3_r8(pre: CPU, post: CPU, opcode: u8, cycles: u8) -> bool {
    &&& cycles == 2
    &&& post.registers == (spec_set_r8(
        pre.registers,
        opcode,
        res_bit(
            spec_get_r8(pre.registers, opcode),
            (opcode >> 3) & 0x07,
        ),
    ))
    &&& ram_eq(pre.ram, post.ram)
}

/// What the ResU3Hl executor leaves behind, and its cycle count.
pub open spec fn op_effect_res_u3_hl(pre: CPU, post: CPU, opcode: u8, cycles: u8) -> bool {
    &&& cycles == 4
    &&& post.registers == (pre.registers)
    &&& ram_wrote(pre.ram, post.ram, be16(pre.registers.h, pre.registers.l), res_bit(
        pre.ram@[be16(pre.registers.h, pre.registers.l) as int],
        (opcode >> 3) & 0x07,
    ))
}

/// What the SetU3R8 executor leaves behind, and its cycle count.
pub open spec fn op_effect_set_u3_r8(pre: CPU, post: CPU, opcode: u8, cycles: u8) -> bool {
    &&& cycles == 2
    &&& post.registers == (spec_set_r8(
        pre.registers,
        opcode,
        set_bit(
            spec_get_r8(pre.registers, opcode),
            (opcode >> 3) & 0x07,
        ),
    ))
    &&& ram_eq(pre.ram, post.ram)
}

/// What the SetU3Hl executor leaves behind, and its cycle count.
pub open spec fn op_effect_set_u3_hl(pre: CPU, post: CPU, opcode: u8, cycles: u8) -> bool {
    &&& cycles == 4
    &&& post.registers == (pre.registers)
    &&& ram_wrote(pre.ram, post.ram, be16(pre.registers.h, pre.registers.l), set_bit(
        pre.ram@[be16(pre.registers.h, pre.registers.l) as int],
        (opcode >> 3) & 0x07,
    ))
}

/// What one executed operation did: for each decoded kind, the exact
/// registers, memory and cycle count its executor leaves, as the
/// executors' own contracts state them.  The IME latch is excluded: the
/// dispatcher promotes it separately, as `spec_ime_after` says.
pub open spec fn spec_op_effect(pre: CPU, post: CPU, op: Operation, cycles: u8) -> bool {
    match spec_kind(op.prefixed, op.opcode) {
        OpKind::Nop => op_effect_nop(pre, post, op.opcode, cycles),
        OpKind::Stop => op_effect_stop(pre, post, op.opcode, cycles),
        OpKind::LdA16Sp => op_effect_ld_a16_sp(pre, post, op.opcode, cycles),
        OpKind::Scf => op_effect_scf(pre, post, op.opcode, cycles),
        OpKind::Ccf => op_effect_ccf(pre, post, op.opcode, cycles),
        OpKind::Halt => op_effect_halt(pre, post, op.opcode, cycles),
        OpKind::IncR16 => op_effect_inc_r16(pre, post, op.opcode, cycles),
        OpKind::DecR16 => op_effect_dec_r16(pre, post, op.opcode, cycles),
        OpKind::IncHl => op_effect_inc_hl(pre, post, op.opcode, cycles),
        OpKind::IncR8 => op_effect_inc_r8(pre, post, op.opcode, cycles),
        OpKind::DecHl => op_effect_dec_hl(pre, post, op.opcode, cycles),
        OpKind::DecR8 => op_effect_dec_r8(pre, post, op.opcode, cycles),
        OpKind::LdHlN8 => op_effect_ld_hl_n8(pre, post, op.opcode, cycles),
        OpKind::LdR8N8 => op_effect_ld_r8_n8(pre, post, op.opcode, cycles),
        OpKind::LdR16N16 => op_effect_ld_r16_n16(pre, post, op.opcode, cycles),
        OpKind::AddHlR16 => op_effect_add_hl_r16(pre, post, op.opcode, cycles),
        OpKind::LdR16A => op_effect_ld_r16_a(pre, post, op.opcode, cycles),
        OpKind::LdAR16 => op_effect_ld_a_r16(pre, post, op.opcode, cycles),
        OpKind::LdHliA => op_effect_ld_hli_a(pre, post, op.opcode, cycles),
        OpKind::LdAHli => op_effect_ld_a_hli(pre, post, op.opcode, cycles),
        OpKind::LdHldA => op_effect_ld_hld_a(pre, post, op.opcode, cycles),
        OpKind::LdAHld => op_effect_ld_a_hld(pre, post, op.opcode, cycles),
        OpKind::RlcA => op_effect_rlc_a(pre, post, op.opcode, cycles),
        OpKind::RrcA => op_effect_rrc_a(pre, post, op.opcode, cycles),
        OpKind::RlA => op_effect_rl_a(pre, post, op.opcode, cycles),
        OpKind::RrA => op_effect_rr_a(pre, post, op.opcode, cycles),
        OpKind::Daa => op_effect_daa(pre, post, op.opcode, cycles),
        OpKind::Cpl => op_effect_cpl(pre, post, op.opcode, cycles),
        OpKind::JrN16 => op_effect_jr_n16(pre, post, op.opcode, cycles),
        OpKind::JrCcN16 => op_effect_jr_cc_n16(pre, post, op.opcode, cycles),
        OpKind::LdHlR8 => op_effect_ld_hl_r8(pre, post, op.opcode, cycles),
        OpKind::LdR8Hl => op_effect_ld_r8_hl(pre, post, op.opcode, cycles),
        OpKind::LdR8R8 => op_effect_ld_r8_r8(pre, post, op.opcode, cycles),
        OpKind::AddAHl => op_effect_add_a_hl(pre, post, op.opcode, cycles),
        OpKind::AddAR8 => op_effect_add_a_r8(pre, post, op.opcode, cycles),
        OpKind::AddAN8 => op_effect_add_a_n8(pre, post, op.opcode, cycles),
        OpKind::AdcAHl => op_effect_adc_a_hl(pre, post, op.opcode, cycles),
        OpKind::AdcAR8 => op_effect_adc_a_r8(pre, post, op.opcode, cycles),
        OpKind::AdcAN8 => op_effect_adc_a_n8(pre, post, op.opcode, cycles),
        OpKind::SubAHl => op_effect_sub_a_hl(pre, post, op.opcode, cycles),
        OpKind::SubAR8 => op_effect_sub_a_r8(pre, post, op.opcode, cycles),
        OpKind::SubAN8 => op_effect_sub_a_n8(pre, post, op.opcode, cycles),
        OpKind::SbcAHl => op_effect_sbc_a_hl(pre, post, op.opcode, cycles),
        OpKind::SbcAR8 => op_effect_sbc_a_r8(pre, post, op.opcode, cycles),
        OpKind::SbcAN8 => op_effect_sbc_a_n8(pre, post, op.opcode, cycles),
        OpKind::AndAHl => op_effect_and_a_hl(pre, post, op.opcode, cycles),
        OpKind::AndAR8 => op_effect_and_a_r8(pre, post, op.opcode, cycles),
        OpKind::AndAN8 => op_effect_and_a_n8(pre, post, op.opcode, cycles),
        OpKind::XorAHl => op_effect_xor_a_hl(pre, post, op.opcode, cycles),
        OpKind::XorAR8 => op_effect_xor_a_r8(pre, post, op.opcode, cycles),
        OpKind::XorAN8 => op_effect_xor_a_n8(pre, post, op.opcode, cycles),
        OpKind::OrAHl => op_effect_or_a_hl(pre, post, op.opcode, cycles),
        OpKind::OrAR8 => op_effect_or_a_r8(pre, post, op.opcode, cycles),
        OpKind::OrAN8 => op_effect_or_a_n8(pre, post, op.opcode, cycles),
        OpKind::CpAHl => op_effect_cp_a_hl(pre, post, op.opcode, cycles),
        OpKind::CpAR8 => op_effect_cp_a_r8(pre, post, op.opcode, cycles),
        OpKind::CpAN8 => op_effect_cp_a_n8(pre, post, op.opcode, cycles),
        OpKind::JpN16 => op_effect_jp_n16(pre, post, op.opcode, cycles),
        OpKind::JpCcN16 => op_effect_jp_cc_n16(pre, post, op.opcode, cycles),
        OpKind::JpHl => op_effect_jp_hl(pre, post, op.opcode, cycles),
        OpKind::CallN16 => op_effect_call_n16(pre, post, op.opcode, cycles),
        OpKind::CallCcN16 => op_effect_call_cc_n16(pre, post, op.opcode, cycles),
        OpKind::RetCc => op_effect_ret_cc(pre, post, op.opcode, cycles),
        OpKind::Ret => op_effect_ret(pre, post, op.opcode, cycles),
        OpKind::Reti => op_effect_reti(pre, post, op.opcode, cycles),
        OpKind::Rst => op_effect_rst(pre, post, op.opcode, cycles),
        OpKind::PushR16 => op_effect_push_r16(pre, post, op.opcode, cycles),
        OpKind::PopR16 => op_effect_pop_r16(pre, post, op.opcode, cycles),
        OpKind::AddSpE8 => op_effect_add_sp_e8(pre, post, op.opcode, cycles),
        OpKind::LdHlSpE8 => op_effect_ld_hl_sp_e8(pre, post, op.opcode, cycles),
        OpKind::LdSpHl => op_effect_ld_sp_hl(pre, post, op.opcode, cycles),
        OpKind::Di => op_effect_di(pre, post, op.opcode, cycles),
        OpKind::Ei => op_effect_ei(pre, post, op.opcode, cycles),
        OpKind::LdhN16A => op_effect_ldh_n16_a(pre, post, op.opcode, cycles),
        OpKind::LdhCA => op_effect_ldh_c_a(pre, post, op.opcode, cycles),
        OpKind::LdN16A => op_effect_ld_n16_a(pre, post, op.opcode, cycles),
        OpKind::LdhAN16 => op_effect_ldh_a_n16(pre, post, op.opcode, cycles),
        OpKind::LdhAC => op_effect_ldh_a_c(pre, post, op.opcode, cycles),
        OpKind::LdAN16 => op_effect_ld_a_n16(pre, post, op.opcode, cycles),
        OpKind::RlcR8 => op_effect_rlc_r8(pre, post, op.opcode, cycles),
        OpKind::RlcHl => op_effect_rlc_hl(pre, post, op.opcode, cycles),
        OpKind::RrcR8 => op_effect_rrc_r8(pre, post, op.opcode, cycles),
        OpKind::RrcHl => op_effect_rrc_hl(pre, post, op.opcode, cycles),
        OpKind::RlR8 => op_effect_rl_r8(pre, post, op.opcode, cycles),
        OpKind::RlHl => op_effect_rl_hl(pre, post, op.opcode, cycles),
        OpKind::RrR8 => op_effect_rr_r8(pre, post, op.opcode, cycles),
        OpKind::RrHl => op_effect_rr_hl(pre, post, op.opcode, cycles),
        OpKind::SlaR8 => op_effect_sla_r8(pre, post, op.opcode, cycles),
        OpKind::SlaHl => op_effect_sla_hl(pre, post, op.opcode, cycles),
        OpKind::SraR8 => op_effect_sra_r8(pre, post, op.opcode, cycles),
        OpKind::SraHl => op_effect_sra_hl(pre, post, op.opcode, cycles),
        OpKind::SwapR8 => op_effect_swap_r8(pre, post, op.opcode, cycles),
        OpKind::SwapHl => op_effect_swap_hl(pre, post, op.opcode, cycles),
        OpKind::SrlR8 => op_effect_srl_r8(pre, post, op.opcode, cycles),
        OpKind::SrlHl => op_effect_srl_hl(pre, post, op.opcode, cycles),
        OpKind::BitU3R8 => op_effect_bit_u3_r8(pre, post, op.opcode, cycles),
        OpKind::BitU3Hl => op_effect_bit_u3_hl(pre, post, op.opcode, cycles),
        OpKind::ResU3R8 => op_effect_res_u3_r8(pre, post, op.opcode, cycles),
        OpKind::ResU3Hl => op_effect_res_u3_hl(pre, post, op.opcode, cycles),
        OpKind::SetU3R8 => op_effect_set_u3_r8(pre, post, op.opcode, cycles),
        OpKind::SetU3Hl => op_effect_set_u3_hl(pre, post, op.opcode, cycles),
        OpKind::Illegal => true,
    }
}


/// The operation the next fetch returns: the byte at PC selects the base
/// table, or — when that byte is the prefix — the byte after it selects the
/// prefixed table.
pub open spec fn spec_fetched_op(cpu: CPU) -> Operation {
    let b = cpu.ram@[cpu.registers.pc as int];
    if b == 0xCB {
        Operation { prefixed: true, opcode: cpu.ram@[spec_fetch_second_pc(cpu) as int] }
    } else {
        Operation { prefixed: false, opcode: b }
    }
}

/// Where PC stands after the first fetched byte, and so where a prefixed
/// fetch reads its second byte: one past PC, except that a latched halt bug
/// holds PC back.
pub open spec fn spec_fetch_second_pc(cpu: CPU) -> u16 {
    if cpu.halt_bug_active {
        cpu.registers.pc
    } else {
        cpu.registers.pc.wrapping_add(1)
    }
}

/// Where PC stands once the whole fetch is done.
pub open spec fn spec_post_fetch_pc(cpu: CPU) -> u16 {
    if spec_fetched_op(cpu).prefixed {
        spec_fetch_second_pc(cpu).wrapping_add(1)
    } else {
        spec_fetch_second_pc(cpu)
    }
}

/// One fetch: PC moves as the halt bug dictates, the halt-bug latch clears,
/// and nothing else changes.
pub open spec fn spec_fetch_effect(pre: CPU, post: CPU) -> bool {
    &&& post.registers == (Registers { pc: spec_post_fetch_pc(pre), ..pre.registers })
    &&& ram_eq(pre.ram, post.ram)
    &&& post.ime == pre.ime
    &&& post.mode == pre.mode
    &&& !post.halt_bug_active
}

/// The machine as the wake-up check leaves it: low power ends (an interrupt
/// is pending) and the running mode resumes; any other mode stays.
pub open spec fn spec_woken(cpu: CPU) -> CPU {
    if cpu.mode == Mode::LowPower {
        CPU { mode: Mode::NormalSpeed, ..cpu }
    } else {
        cpu
    }
}

/// What servicing interrupts after an instruction does: nothing while the
/// IME latch is down or no interrupt is pending; otherwise the five-cycle
/// dispatch pushes PC, jumps to the pending interrupt's fixed handler,
/// clears its IF bit and drops the latch.
pub open spec fn spec_dispatch_effect(pre: CPU, post: CPU, d: u8) -> bool {
    &&& post.mode == pre.mode
    &&& post.halt_bug_active == pre.halt_bug_active
    &&& post.registers.f == pre.registers.f
    &&& if pre.ime == Ime::On && spec_pending_interrupt(pre.ram@) is Some {
        let i = spec_pending_interrupt(pre.ram@)->Some_0;
        let pushed = crate::cpu::spec_push16_data(
            pre.ram@,
            be16(pre.registers.sp_0, pre.registers.sp_1),
            pre.registers.pc,
        );
        &&& d == 5
        &&& post.ime == Ime::Off
        &&& post.registers == (Registers {
            pc: crate::ram::spec_handler_address(i),
            sp_0: high_byte(be16(pre.registers.sp_0, pre.registers.sp_1).wrapping_sub(2)),
            sp_1: low_byte(be16(pre.registers.sp_0, pre.registers.sp_1).wrapping_sub(2)),
            ..pre.registers
        })
        &&& post.ram@ == pushed.update(
            crate::ram::IF_ADDRESS as int,
            pushed[crate::ram::IF_ADDRESS as int] & !crate::ram::interrupt_mask(i),
        )
        &&& post.ram.spec_dma_requested() == (pre.ram.spec_dma_requested() || be16(
            pre.registers.sp_0,
            pre.registers.sp_1,
        ).wrapping_sub(2) == DMA_TRIGGER_ADDRESS || be16(
            pre.registers.sp_0,
            pre.registers.sp_1,
        ).wrapping_sub(2).wrapping_add(1) == DMA_TRIGGER_ADDRESS)
    } else {
        &&& d == 0
        &&& post.registers == pre.registers
        &&& ram_eq(pre.ram, post.ram)
        &&& post.ime == pre.ime
    }
}

/// One whole `execute` step.  Without a fetch (very low power, or low power
/// with nothing pending) the machine idles for one cycle.  With a fetch,
/// some fetched state, post-instruction state and cycle counts `c` and `d`
/// tie the final state to the fetched instruction: the fetch moved PC as
/// `spec_fetch_effect` says, the instruction acted as `spec_op_effect` says
/// with the IME latch moved by `spec_ime_after`, interrupt dispatch acted as
/// `spec_dispatch_effect` says, and the returned count is `c + d`.
pub open spec fn spec_execute_effect(pre: CPU, post: CPU, r: Result<u8, EmuError>) -> bool {
    &&& post.ram.wf()
    &&& post.registers.pc < 0x10000
    &&& (pre.registers.f & 0x0F == 0 ==> post.registers.f & 0x0F == 0)
    &&& (r is Ok ==> 1 <= r->Ok_0 <= 11)
    &&& (r is Err <==> (spec_will_fetch(pre) && pre.ram@[pre.registers.pc as int] != 0xCB
        && spec_kind_base(pre.ram@[pre.registers.pc as int]) == OpKind::Illegal))
    &&& (r is Err ==> r->Err_0 == EmuError::UnknownInstruction(
        pre.ram@[pre.registers.pc as int],
    ))
    &&& (!spec_will_fetch(pre) ==> {
        &&& r is Ok
        &&& r->Ok_0 == 1
        &&& post.registers == pre.registers
        &&& ram_eq(pre.ram, post.ram)
        &&& post.ime == pre.ime
        &&& post.mode == pre.mode
        &&& post.halt_bug_active == pre.halt_bug_active
    })
    &&& (r is Ok && spec_will_fetch(pre) ==> (exists|fetched: CPU, mid: CPU, c: u8, d: u8|
        #![trigger spec_op_effect(fetched, mid, spec_fetched_op(pre), c), spec_dispatch_effect(mid, post, d)]
        {
            let op = spec_fetched_op(pre);
            &&& spec_fetch_effect(spec_woken(pre), fetched)
            &&& spec_op_effect(fetched, mid, op, c)
            &&& mid.ime == spec_ime_after(pre.ime, spec_kind(op.prefixed, op.opcode))
            &&& (spec_kind(op.prefixed, op.opcode) != OpKind::Halt && spec_kind(
                op.prefixed,
                op.opcode,
            ) != OpKind::Stop ==> mid.mode == spec_woken(pre).mode)
            &&& (spec_kind(op.prefixed, op.opcode) != OpKind::Halt ==> !mid.halt_bug_active)
            &&& spec_dispatch_effect(mid, post, d)
            &&& (d == 0 || d == 5)
            &&& r->Ok_0 == c + d
        }))
}


/// The halt bug, end to end, over two `execute` steps: with the IME latch
/// down but interrupts pending, HALT leaves the machine running with the
/// bug latched and PC one past the HALT; the next step then fetches the ADD
/// opcode byte without advancing PC, so the ADD reads its own opcode byte
/// 0xC6 as the operand while the true operand byte stays untouched one past
/// it, where PC comes to rest.
pub proof fn lemma_halt_bug_sequence(
    s0: CPU,
    s1: CPU,
    s2: CPU,
    r1: Result<u8, EmuError>,
    r2: Result<u8, EmuError>,
)
    requires
        s0.ram.wf(),
        s0.mode == Mode::NormalSpeed,
        s0.ime == Ime::Off,
        !s0.halt_bug_active,
        s0.registers.pc == 0x0100,
        s0.ram@[0x0100] == 0x76,
        s0.ram@[0x0101] == 0xC6,
        s0.ram@[0x0102] == 99,
        s0.ram@[0xFFFF] == 0xFF,
        s0.ram@[0xFF0F] == 0xFF,
        spec_execute_effect(s0, s1, r1),
        spec_execute_effect(s1, s2, r2),
    ensures
        r1 == Result::<u8, EmuError>::Ok(1),
        s1.mode == Mode::NormalSpeed,
        s1.halt_bug_active,
        s1.registers.pc == 0x0101,
        s1.ram@ == s0.ram@,
        r2 is Ok,
        s2.registers.a == crate::cpu::alu::adc_result(s0.registers.a, 0xC6, 0),
        s2.registers.pc == 0x0102,
        s2.ram@[0x0102] == 99,
{
    assert((0x76u8 >> 6) & 0x07 == 1 && (0x76u8 >> 3) & 0x07 == 6 && 0x76u8 & 0x07 == 6)
        by (bit_vector);
    assert((0xC6u8 >> 6) & 0x07 == 3 && (0xC6u8 >> 3) & 0x07 == 0 && 0xC6u8 & 0x07 == 6)
        by (bit_vector);
    assert(0xFFu8 & 0x01 != 0) by (bit_vector);
}

impl CPU {
    pub fn no_op(&mut self) -> (c: u8)
        ensures
            c == 1,
            regs_step(*old(self), *final(self), old(self).registers),
    {
        1
    }

    /// DI: drop the IME latch at once.
    pub fn di(&mut self) -> (c: u8)
        ensures
            c == 1,
            final(self).registers == old(self).registers,
            ram_eq(old(self).ram, final(self).ram),
            final(self).ime == Ime::Off,
            final(self).mode == old(self).mode,
            final(self).halt_bug_active == old(self).halt_bug_active,
    {
        self.ime = Ime::Off;
        1
    }

    /// EI: arm the IME latch; it sets after the next instruction.
    pub fn ei(&mut self) -> (c: u8)
        ensures
            c == 1,
            final(self).registers == old(self).registers,
            ram_eq(old(self).ram, final(self).ram),
            final(self).ime == Ime::ToSet,
            final(self).mode == old(self).mode,
            final(self).halt_bug_active == old(self).halt_bug_active,
    {
        self.ime = Ime::ToSet;
        1
    }

    /// STOP: enter the very-low-power mode.
    pub fn stop(&mut self) -> (c: u8)
        ensures
            c == 1,
            final(self).registers == old(self).registers,
            ram_eq(old(self).ram, final(self).ram),
            final(self).ime == old(self).ime,
            final(self).mode == Mode::VeryLowPower,
            final(self).halt_bug_active == old(self).halt_bug_active,
    {
        self.mode = Mode::VeryLowPower;
        1
    }

    /// HALT: enter low power, except that with IME off and an interrupt
    /// already pending the mode stays and the halt bug is latched instead.
    pub fn halt(&mut self) -> (c: u8)
        requires
            old(self).ram.wf(),
        ensures
            c == 1,
            final(self).registers == old(self).registers,
            ram_eq(old(self).ram, final(self).ram),
            final(self).ime == old(self).ime,
            (old(self).ime == Ime::On || spec_pending_interrupt(old(self).ram@) is None) ==> {
                &&& final(self).mode == Mode::LowPower
                &&& final(self).halt_bug_active == old(self).halt_bug_active
            },
            (old(self).ime != Ime::On && spec_pending_interrupt(old(self).ram@) is Some) ==> {
                &&& final(self).mode == old(self).mode
                &&& final(self).halt_bug_active
            },
    {
        if self.ime == Ime::On {
            self.mode = Mode::LowPower;
            return 1;
        }

        // IME not set: sleep only when nothing is pending, otherwise latch
        // the halt bug
        if self.ram.pending_interrupt().is_none() {
            self.mode = Mode::LowPower;
        } else {
            self.halt_bug_active = true;
        }
        1
    }

    /// Fetch the next operation: one byte, or two when the first is the
    /// prefix.  A pending halt bug makes this fetch not advance PC.
    pub fn get_operation(&mut self) -> (op: Operation)
        requires
            old(self).ram.wf(),
        ensures
            ram_eq(old(self).ram, final(self).ram),
            final(self).ime == old(self).ime,
            final(self).mode == old(self).mode,
            !final(self).halt_bug_active,
            op.prefixed == (old(self).ram@[old(self).registers.pc as int] == 0xCB),
            !op.prefixed ==> {
                &&& op.opcode == old(self).ram@[old(self).registers.pc as int]
                &&& final(self).registers == (Registers {
                    pc: (if old(self).halt_bug_active {
                        old(self).registers.pc
                    } else {
                        old(self).registers.pc.wrapping_add(1)
                    }),
                    ..old(self).registers
                })
            },
            op.prefixed ==> {
                &&& op.opcode == old(self).ram@[(if old(self).halt_bug_active {
                    old(self).registers.pc
                } else {
                    old(self).registers.pc.wrapping_add(1)
                }) as int]
                &&& final(self).registers == (Registers {
                    pc: (if old(self).halt_bug_active {
                        old(self).registers.pc
                    } else {
                        old(self).registers.pc.wrapping_add(1)
                    }).wrapping_add(1),
                    ..old(self).registers
                })
            },
            op == spec_fetched_op(*old(self)),
            spec_fetch_effect(*old(self), *final(self)),
    {
        let instruction = self.read_byte();

        if self.halt_bug_active {
            // the halt bug makes the next instruction byte be read twice by
            // failing to advance PC
            self.registers.pc = self.registers.pc.wrapping_sub(1);
            self.halt_bug_active = false;
        }

        if instruction == 0xCB {
            let cb = self.read_byte();
            Operation { prefixed: true, opcode: cb }
        } else {
            Operation { prefixed: false, opcode: instruction }
        }
    }

    /// Service a pending interrupt when the IME latch is set: clear its IF
    /// bit, push PC, jump to the fixed handler and drop the latch.  The
    /// dispatch itself costs five machine cycles.
    fn handle_interrupt(&mut self) -> (c: u8)
        requires
            old(self).ram.wf(),
        ensures
            final(self).ram.wf(),
            spec_dispatch_effect(*old(self), *final(self), c),
    {
        if self.ime != Ime::On {
            return 0;
        }

        let pending_interrupt = self.ram.pending_interrupt();

        if let Some(interrupt) = pending_interrupt {
            self.stack_push_16(self.registers.pc);
            self.registers.pc = interrupt.handler_address();
            self.ime = Ime::Off;
            self.ram.clear_interrupt(interrupt);
            5
        } else {
            0
        }
    }

    /// Decode the fetched operation and run its executor, then promote an
    /// armed IME delay.  The eleven undefined opcodes are refused.
    #[verifier::rlimit(100)]
    #[verifier::spinoff_prover]
    pub fn run_operation(&mut self, op: Operation) -> (r: Result<u8, EmuError>)
        requires
            old(self).ram.wf(),
        ensures
            final(self).ram.wf(),
            old(self).registers.f & 0x0F == 0 ==> final(self).registers.f & 0x0F == 0,
            r is Err <==> spec_kind(op.prefixed, op.opcode) == OpKind::Illegal,
            r is Err ==> {
                &&& r->Err_0 == EmuError::UnknownInstruction(op.opcode)
                &&& final(self).registers == old(self).registers
                &&& ram_eq(old(self).ram, final(self).ram)
                &&& ctrl_unchanged(*old(self), *final(self))
            },
            r is Ok ==> 1 <= r->Ok_0 <= 6,
            r is Ok ==> final(self).ime == spec_ime_after(
                old(self).ime,
                spec_kind(op.prefixed, op.opcode),
            ),
            r is Ok && spec_kind(op.prefixed, op.opcode) != OpKind::Halt && spec_kind(
                op.prefixed,
                op.opcode,
            ) != OpKind::Stop ==> final(self).mode == old(self).mode,
            r is Ok && spec_kind(op.prefixed, op.opcode) != OpKind::Halt
                ==> final(self).halt_bug_active == old(self).halt_bug_active,
            r is Ok ==> spec_op_effect(*old(self), *final(self), op, r->Ok_0),
    {
        proof {
            lemma_flags_of_props();
            lemma_high_nibble_mask_clean();
            lemma_mask_literals();
            lemma_field_bounds();
        }
        let kind = op.kind();
        if kind == OpKind::Illegal {
            return Err(EmuError::UnknownInstruction(op.opcode));
        }

        let i = op.opcode;
        match kind {
            OpKind::Nop => {
                let cycles = self.no_op();
                self.promote_ime();
                return Ok(cycles);
            },
            OpKind::Stop => {
                let cycles = self.stop();
                self.promote_ime();
                return Ok(cycles);
            },
            OpKind::LdA16Sp => {
                let cycles = self.ld_a16_sp();
                self.promote_ime();
                return Ok(cycles);
            },
            OpKind::Scf => {
                let cycles = self.scf();
                self.promote_ime();
                return Ok(cycles);
            },
            OpKind::Ccf => {
                let cycles = self.ccf();
                self.promote_ime();
                return Ok(cycles);
            },
            OpKind::Halt => {
                let cycles = self.halt();
                self.promote_ime();
                return Ok(cycles);
            },
            OpKind::IncR16 => {
                let cycles = self.inc_r16(i);
                self.promote_ime();
                return Ok(cycles);
            },
            OpKind::DecR16 => {
                let cycles = self.dec_r16(i);
                self.promote_ime();
                return Ok(cycles);
            },
            OpKind::IncHl => {
                let cycles = self.inc_hl();
                self.promote_ime();
                return Ok(cycles);
            },
            OpKind::IncR8 => {
                let cycles = self.inc_r8(i);
                self.promote_ime();
                return Ok(cycles);
            },
            OpKind::DecHl => {
                let cycles = self.dec_hl();
                self.promote_ime();
                return Ok(cycles);
            },
            OpKind::DecR8 => {
                let cycles = self.dec_r8(i);
                self.promote_ime();
                return Ok(cycles);
            },
            OpKind::LdHlN8 => {
                let cycles = self.ld_hl_n8();
                self.promote_ime();
                return Ok(cycles);
            },
            OpKind::LdR8N8 => {
                let cycles = self.ld_r8_n8(i);
                self.promote_ime();
                return Ok(cycles);
            },
            OpKind::LdR16N16 => {
                let cycles = self.ld_r16_n16(i);
                self.promote_ime();
                return Ok(cycles);
            },
            OpKind::AddHlR16 => {
                let cycles = self.add_hl_r16(i);
                self.promote_ime();
                return Ok(cycles);
            },
            OpKind::LdR16A => {
                let cycles = self.ld_r16_a(i);
                self.promote_ime();
                return Ok(cycles);
            },
            OpKind::LdAR16 => {
                let cycles = self.ld_a_r16(i);
                self.promote_ime();
                return Ok(cycles);
            },
            OpKind::LdHliA => {
                let cycles = self.ld_hli_a();
                self.promote_ime();
                return Ok(cycles);
            },
            OpKind::LdAHli => {
                let cycles = self.ld_a_hli();
                self.promote_ime();
                return Ok(cycles);
            },
            OpKind::LdHldA => {
                let cycles = self.ld_hld_a();
                self.promote_ime();
                return Ok(cycles);
            },
            OpKind::LdAHld => {
                let cycles = self.ld_a_hld();
                self.promote_ime();
                return Ok(cycles);
            },
            OpKind::RlcA => {
                let cycles = self.rlc_a();
                self.promote_ime();
                return Ok(cycles);
            },
            OpKind::RrcA => {
                let cycles = self.rrc_a();
                self.promote_ime();
                return Ok(cycles);
            },
            OpKind::RlA => {
                let cycles = self.rl_a();
                self.promote_ime();
                return Ok(cycles);
            },
            OpKind::RrA => {
                let cycles = self.rr_a();
                self.promote_ime();
                return Ok(cycles);
            },
            OpKind::Daa => {
                let cycles = self.daa();
                self.promote_ime();
                return Ok(cycles);
            },
            OpKind::Cpl => {
                let cycles = self.cpl();
                self.promote_ime();
                return Ok(cycles);
            },
            OpKind::JrN16 => {
                let cycles = self.jr_n16();
                self.promote_ime();
                return Ok(cycles);
            },
            OpKind::JrCcN16 => {
                let cycles = self.jr_cc_n16(i);
                self.promote_ime();
                return Ok(cycles);
            },
            OpKind::LdHlR8 => {
                let cycles = self.ld_hl_r8(i);
                self.promote_ime();
                return Ok(cycles);
            },
            OpKind::LdR8Hl => {
                let cycles = self.ld_r8_hl(i);
                self.promote_ime();
                return Ok(cycles);
            },
            OpKind::LdR8R8 => {
                let cycles = self.ld_r8_r8(i);
                self.promote_ime();
                return Ok(cycles);
            },
            OpKind::AddAHl => {
                let cycles = self.add_a_hl();
                self.promote_ime();
                return Ok(cycles);
            },
            OpKind::AddAR8 => {
                let cycles = self.add_a_r8(i);
                self.promote_ime();
                return Ok(cycles);
            },
            OpKind::AddAN8 => {
                let cycles = self.add_a_n8();
                self.promote_ime();
                return Ok(cycles);
            },
            OpKind::AdcAHl => {
                let cycles = self.addc_a_hl();
                self.promote_ime();
                return Ok(cycles);
            },
            OpKind::AdcAR8 => {
                let cycles = self.addc_a_r8(i);
                self.promote_ime();
                return Ok(cycles);
            },
            OpKind::AdcAN8 => {
                let cycles = self.addc_a_n8();
                self.promote_ime();
                return Ok(cycles);
            },
            OpKind::SubAHl => {
                let cycles = self.sub_a_hl();
                self.promote_ime();
                return Ok(cycles);
            },
            OpKind::SubAR8 => {
                let cycles = self.sub_a_r8(i);
                self.promote_ime();
                return Ok(cycles);
            },
            OpKind::SubAN8 => {
                let cycles = self.sub_a_n8();
                self.promote_ime();
                return Ok(cycles);
            },
            OpKind::SbcAHl => {
                let cycles = self.subc_a_hl();
                self.promote_ime();
                return Ok(cycles);
            },
            OpKind::SbcAR8 => {
                let cycles = self.subc_a_r8(i);
                self.promote_ime();
                return Ok(cycles);
            },
            OpKind::SbcAN8 => {
                let cycles = self.subc_a_n8();
                self.promote_ime();
                return Ok(cycles);
            },
            OpKind::AndAHl => {
                let cycles = self.and_a_hl();
                self.promote_ime();
                return Ok(cycles);
            },
            OpKind::AndAR8 => {
                let cycles = self.and_a_r8(i);
                self.promote_ime();
                return Ok(cycles);
            },
            OpKind::AndAN8 => {
                let cycles = self.and_a_n8();
                self.promote_ime();
                return Ok(cycles);
            },
            OpKind::XorAHl => {
                let cycles = self.xor_a_hl();
                self.promote_ime();
                return Ok(cycles);
            },
            OpKind::XorAR8 => {
                let cycles = self.xor_a_r8(i);
                self.promote_ime();
                return Ok(cycles);
            },
            OpKind::XorAN8 => {
                let cycles = self.xor_a_n8();
                self.promote_ime();
                return Ok(cycles);
            },
            OpKind::OrAHl => {
                let cycles = self.or_a_hl();
                self.promote_ime();
                return Ok(cycles);
            },
            OpKind::OrAR8 => {
                let cycles = self.or_a_r8(i);
                self.promote_ime();
                return Ok(cycles);
            },
            OpKind::OrAN8 => {
                let cycles = self.or_a_n8();
                self.promote_ime();
                return Ok(cycles);
            },
            OpKind::CpAHl => {
                let cycles = self.cp_a_hl();
                self.promote_ime();
                return Ok(cycles);
            },
            OpKind::CpAR8 => {
                let cycles = self.cp_a_r8(i);
                self.promote_ime();
                return Ok(cycles);
            },
            OpKind::CpAN8 => {
                let cycles = self.cp_a_n8();
                self.promote_ime();
                return Ok(cycles);
            },
            OpKind::JpN16 => {
                let cycles = self.jp_n16();
                self.promote_ime();
                return Ok(cycles);
            },
            OpKind::JpCcN16 => {
                let cycles = self.jp_cc_n16(i);
                self.promote_ime();
                return Ok(cycles);
            },
            OpKind::JpHl => {
                let cycles = self.jp_hl();
                self.promote_ime();
                return Ok(cycles);
            },
            OpKind::CallN16 => {
                let cycles = self.call_n16();
                self.promote_ime();
                return Ok(cycles);
            },
            OpKind::CallCcN16 => {
                let cycles = self.call_cc_n16(i);
                self.promote_ime();
                return Ok(cycles);
            },
            OpKind::RetCc => {
                let cycles = self.ret_cc(i);
                self.promote_ime();
                return Ok(cycles);
            },
            OpKind::Ret => {
                let cycles = self.ret();
                self.promote_ime();
                return Ok(cycles);
            },
            OpKind::Reti => {
                let cycles = self.reti();
                self.promote_ime();
                return Ok(cycles);
            },
            OpKind::Rst => {
                let cycles = self.rst(i);
                self.promote_ime();
                return Ok(cycles);
            },
            OpKind::PushR16 => {
                let cycles = self.push_r16(i);
                self.promote_ime();
                return Ok(cycles);
            },
            OpKind::PopR16 => {
                let cycles = self.pop_r16(i);
                self.promote_ime();
                return Ok(cycles);
            },
            OpKind::AddSpE8 => {
                let cycles = self.add_sp_e8();
                self.promote_ime();
                return Ok(cycles);
            },
            OpKind::LdHlSpE8 => {
                let cycles = self.ld_hl_sp_plus_e8();
                self.promote_ime();
                return Ok(cycles);
            },
            OpKind::LdSpHl => {
                let cycles = self.ld_sp_hl();
                self.promote_ime();
                return Ok(cycles);
            },
            OpKind::Di => {
                let cycles = self.di();
                self.promote_ime();
                return Ok(cycles);
            },
            OpKind::Ei => {
                let cycles = self.ei();
                return Ok(cycles);
            },
            OpKind::LdhN16A => {
                let cycles = self.ldh_n16_a();
                self.promote_ime();
                return Ok(cycles);
            },
            OpKind::LdhCA => {
                let cycles = self.ldh_c_a();
                self.promote_ime();
                return Ok(cycles);
            },
            OpKind::LdN16A => {
                let cycles = self.ld_n16_a();
                self.promote_ime();
                return Ok(cycles);
            },
            OpKind::LdhAN16 => {
                let cycles = self.ldh_a_n16();
                self.promote_ime();
                return Ok(cycles);
            },
            OpKind::LdhAC => {
                let cycles = self.ldh_a_c();
                self.promote_ime();
                return Ok(cycles);
            },
            OpKind::LdAN16 => {
                let cycles = self.ld_a_n16();
                self.promote_ime();
                return Ok(cycles);
            },
            OpKind::RlcR8 => {
                let cycles = self.rlc_r8(i);
                self.promote_ime();
                return Ok(cycles);
            },
            OpKind::RlcHl => {
                let cycles = self.rlc_hl();
                self.promote_ime();
                return Ok(cycles);
            },
            OpKind::RrcR8 => {
                let cycles = self.rrc_r8(i);
                self.promote_ime();
                return Ok(cycles);
            },
            OpKind::RrcHl => {
                let cycles = self.rrc_hl();
                self.promote_ime();
                return Ok(cycles);
            },
            OpKind::RlR8 => {
                let cycles = self.rl_r8(i);
                self.promote_ime();
                return Ok(cycles);
            },
            OpKind::RlHl => {
                let cycles = self.rl_hl();
                self.promote_ime();
                return Ok(cycles);
            },
            OpKind::RrR8 => {
                let cycles = self.rr_r8(i);
                self.promote_ime();
                return Ok(cycles);
            },
            OpKind::RrHl => {
                let cycles = self.rr_hl();
                self.promote_ime();
                return Ok(cycles);
            },
            OpKind::SlaR8 => {
                let cycles = self.sla_r8(i);
                self.promote_ime();
                return Ok(cycles);
            },
            OpKind::SlaHl => {
                let cycles = self.sla_hl();
                self.promote_ime();
                return Ok(cycles);
            },
            OpKind::SraR8 => {
                let cycles = self.sra_r8(i);
                self.promote_ime();
                return Ok(cycles);
            },
            OpKind::SraHl => {
                let cycles = self.sra_hl();
                self.promote_ime();
                return Ok(cycles);
            },
            OpKind::SwapR8 => {
                let cycles = self.swap_r8(i);
                self.promote_ime();
                return Ok(cycles);
            },
            OpKind::SwapHl => {
                let cycles = self.swap_hl();
                self.promote_ime();
                return Ok(cycles);
            },
            OpKind::SrlR8 => {
                let cycles = self.srl_r8(i);
                self.promote_ime();
                return Ok(cycles);
            },
            OpKind::SrlHl => {
                let cycles = self.srl_hl();
                self.promote_ime();
                return Ok(cycles);
            },
            OpKind::BitU3R8 => {
                let cycles = self.bit_u3_r8(i);
                self.promote_ime();
                return Ok(cycles);
            },
            OpKind::BitU3Hl => {
                let cycles = self.bit_u3_hl(i);
                self.promote_ime();
                return Ok(cycles);
            },
            OpKind::ResU3R8 => {
                let cycles = self.res_u3_r8(i);
                self.promote_ime();
                return Ok(cycles);
            },
            OpKind::ResU3Hl => {
                let cycles = self.res_u3_hl(i);
                self.promote_ime();
                return Ok(cycles);
            },
            OpKind::SetU3R8 => {
                let cycles = self.set_u3_r8(i);
                self.promote_ime();
                return Ok(cycles);
            },
            OpKind::SetU3Hl => {
                let cycles = self.set_u3_hl(i);
                self.promote_ime();
                return Ok(cycles);
            },
            OpKind::Illegal => Err(EmuError::UnknownInstruction(op.opcode)),
        }
    }

    /// Promote an armed IME delay: the latch set by EI becomes effective
    /// after the following instruction has run.
    fn promote_ime(&mut self)
        ensures
            final(self).registers == old(self).registers,
            ram_eq(old(self).ram, final(self).ram),
            final(self).mode == old(self).mode,
            final(self).halt_bug_active == old(self).halt_bug_active,
            final(self).ime == (if old(self).ime == Ime::ToSet {
                Ime::On
            } else {
                old(self).ime
            }),
    {
        if self.ime == Ime::ToSet {
            self.ime = Ime::On;
        }
    }

    /// Run one instruction: wake from low power when an interrupt is
    /// pending, fetch, decode, execute, then service interrupts.  The
    /// returned count is the machine cycles consumed, dispatch included.
    pub fn execute(&mut self) -> (r: Result<u8, EmuError>)
        requires
            old(self).ram.wf(),
        ensures
            spec_execute_effect(*old(self), *final(self), r),
    {
        match self.mode {
            Mode::LowPower => {
                // in low power the CPU stops fetching until an interrupt
                // becomes pending
                if self.ram.pending_interrupt().is_none() {
                    return Ok(1);
                }
                self.mode = Mode::NormalSpeed;
            },
            Mode::VeryLowPower => {
                return Ok(1);
            },
            _ => {},
        }

        let ghost woken = *self;

        let op = self.get_operation();
        let ghost fetched = *self;

        let cycles = match self.run_operation(op) {
            Ok(c) => c,
            Err(e) => {
                return Err(e);
            },
        };
        let ghost mid = *self;

        let dispatch = self.handle_interrupt();

        proof {
            // the ghost snapshots witness the step relation clause by clause
            assert(woken == spec_woken(*old(self)));
            assert(op == spec_fetched_op(*old(self)));
            assert(spec_fetch_effect(spec_woken(*old(self)), fetched));
            assert(spec_op_effect(fetched, mid, spec_fetched_op(*old(self)), cycles));
            assert(mid.ime == spec_ime_after(
                old(self).ime,
                spec_kind(op.prefixed, op.opcode),
            ));
            assert(spec_dispatch_effect(mid, *self, dispatch));
        }
        Ok(cycles + dispatch)
    }
}

} // verus!
