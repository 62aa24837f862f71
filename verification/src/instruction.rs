//! The records of the index: instructions, their forms and operands, and the
//! closed set of operand types.

use vstd::prelude::*;
use vstd::string::*;
use crate::error::{ParseError, ParseErrorView};
use crate::text::str_eq;

verus! {

/// The architecture that an instruction belongs to.
#[allow(non_camel_case_types)]
#[derive(Debug, Clone, Copy, PartialEq, Eq, Structural)]
pub enum Arch {
    x86,
    x86_64,
}

impl Arch {
    /// The tag under which the architecture is written.
    pub open spec fn surface(self) -> Seq<char> {
        match self {
            Arch::x86 => "x86"@,
            Arch::x86_64 => "x86_64"@,
        }
    }

    /// The tag under which the architecture is written.
    pub fn as_str(&self) -> (tag: &'static str)
        ensures
            tag@ == self.surface(),
    {
        match self {
            Arch::x86 => "x86",
            Arch::x86_64 => "x86_64",
        }
    }
}

impl Default for Arch {
    /// The 64-bit architecture.
    fn default() -> (arch: Arch)
        ensures
            arch == Arch::x86_64,
    {
        Arch::x86_64
    }
}

/// The syntactic class of an operand: immediates by width, register classes,
/// memory operands with their masking, zeroing and broadcast suffixes, mask
/// registers, relative addresses, and the rounding and suppress-exceptions
/// pseudo-operands.
#[allow(non_camel_case_types)]
#[derive(Debug, Clone, Copy, PartialEq, Eq, Structural)]
pub enum OperandType {
    _1,
    _3,
    imm4,
    imm8,
    imm16,
    imm32,
    imm64,
    al,
    cl,
    r8,
    r8l,
    ax,
    r16,
    r16l,
    eax,
    r32,
    r32l,
    rax,
    r64,
    mm,
    xmm0,
    xmm,
    xmm_k,
    xmm_k_z,
    ymm,
    ymm_k,
    ymm_k_z,
    zmm,
    zmm_k,
    zmm_k_z,
    k,
    k_k,
    moffs32,
    moffs64,
    m,
    m8,
    m16,
    m16_k,
    m16_k_z,
    m32,
    m32_k,
    m32_k_z,
    m32_m16bcst,
    m64,
    m64_k,
    m64_k_z,
    m64_m16bcst,
    m128,
    m128_k,
    m128_k_z,
    m256,
    m256_k,
    m256_k_z,
    m512,
    m512_k,
    m512_k_z,
    m64_m32bcst,
    m128_m32bcst,
    m256_m32bcst,
    m512_m32bcst,
    m128_m16bcst,
    m128_m64bcst,
    m256_m16bcst,
    m256_m64bcst,
    m512_m16bcst,
    m512_m64bcst,
    vm32x,
    vm32x_k,
    vm64x,
    vm64xk,
    vm32y,
    vm32yk_,
    vm64y,
    vm64y_k,
    vm32z,
    vm32z_k,
    vm64z,
    vm64z_k,
    rel8,
    rel32,
    er,
    sae,
    sibmem,
    tmm,
}

impl OperandType {
    /// The one spelling of the operand type. Braces and slashes are part of
    /// the spelling; nothing in it is interpreted.
    pub open spec fn surface(self) -> Seq<char> {
        match self {
            OperandType::_1 => "1"@,
            OperandType::_3 => "3"@,
            OperandType::imm4 => "imm4"@,
            OperandType::imm8 => "imm8"@,
            OperandType::imm16 => "imm16"@,
            OperandType::imm32 => "imm32"@,
            OperandType::imm64 => "imm64"@,
            OperandType::al => "al"@,
            OperandType::cl => "cl"@,
            OperandType::r8 => "r8"@,
            OperandType::r8l => "r8l"@,
            OperandType::ax => "ax"@,
            OperandType::r16 => "r16"@,
            OperandType::r16l => "r16l"@,
            OperandType::eax => "eax"@,
            OperandType::r32 => "r32"@,
            OperandType::r32l => "r32l"@,
            OperandType::rax => "rax"@,
            OperandType::r64 => "r64"@,
            OperandType::mm => "mm"@,
            OperandType::xmm0 => "xmm0"@,
            OperandType::xmm => "xmm"@,
            OperandType::xmm_k => "xmm{k}"@,
            OperandType::xmm_k_z => "xmm{k}{z}"@,
            OperandType::ymm => "ymm"@,
            OperandType::ymm_k => "ymm{k}"@,
            OperandType::ymm_k_z => "ymm{k}{z}"@,
            OperandType::zmm => "zmm"@,
            OperandType::zmm_k => "zmm{k}"@,
            OperandType::zmm_k_z => "zmm{k}{z}"@,
            OperandType::k => "k"@,
            OperandType::k_k => "k{k}"@,
            OperandType::moffs32 => "moffs32"@,
            OperandType::moffs64 => "moffs64"@,
            OperandType::m => "m"@,
            OperandType::m8 => "m8"@,
            OperandType::m16 => "m16"@,
            OperandType::m16_k => "m16{k}"@,
            OperandType::m16_k_z => "m16{k}{z}"@,
            OperandType::m32 => "m32"@,
            OperandType::m32_k => "m32{k}"@,
            OperandType::m32_k_z => "m32{k}{z}"@,
            OperandType::m32_m16bcst => "m32/m16bcst"@,
            OperandType::m64 => "m64"@,
            OperandType::m64_k => "m64{k}"@,
            OperandType::m64_k_z => "m64{k}{z}"@,
            OperandType::m64_m16bcst => "m64/m16bcst"@,
            OperandType::m128 => "m128"@,
            OperandType::m128_k => "m128{k}"@,
            OperandType::m128_k_z => "m128{k}{z}"@,
            OperandType::m256 => "m256"@,
            OperandType::m256_k => "m256{k}"@,
            OperandType::m256_k_z => "m256{k}{z}"@,
            OperandType::m512 => "m512"@,
            OperandType::m512_k => "m512{k}"@,
            OperandType::m512_k_z => "m512{k}{z}"@,
            OperandType::m64_m32bcst => "m64/m32bcst"@,
            OperandType::m128_m32bcst => "m128/m32bcst"@,
            OperandType::m256_m32bcst => "m256/m32bcst"@,
            OperandType::m512_m32bcst => "m512/m32bcst"@,
            OperandType::m128_m16bcst => "m128/m16bcst"@,
            OperandType::m128_m64bcst => "m128/m64bcst"@,
            OperandType::m256_m16bcst => "m256/m16bcst"@,
            OperandType::m256_m64bcst => "m256/m64bcst"@,
            OperandType::m512_m16bcst => "m512/m16bcst"@,
            OperandType::m512_m64bcst => "m512/m64bcst"@,
            OperandType::vm32x => "vm32x"@,
            OperandType::vm32x_k => "vm32x{k}"@,
            OperandType::vm64x => "vm64x"@,
            OperandType::vm64xk => "vm64x{k}"@,
            OperandType::vm32y => "vm32y"@,
            OperandType::vm32yk_ => "vm32y{k}"@,
            OperandType::vm64y => "vm64y"@,
            OperandType::vm64y_k => "vm64y{k}"@,
            OperandType::vm32z => "vm32z"@,
            OperandType::vm32z_k => "vm32z{k}"@,
            OperandType::vm64z => "vm64z"@,
            OperandType::vm64z_k => "vm64z{k}"@,
            OperandType::rel8 => "rel8"@,
            OperandType::rel32 => "rel32"@,
            OperandType::er => "{er}"@,
            OperandType::sae => "{sae}"@,
            OperandType::sibmem => "sibmem"@,
            OperandType::tmm => "tmm"@,
        }
    }

    /// The one spelling of the operand type.
    pub fn as_str(&self) -> (token: &'static str)
        ensures
            token@ == self.surface(),
    {
        match self {
            OperandType::_1 => "1",
            OperandType::_3 => "3",
            OperandType::imm4 => "imm4",
            OperandType::imm8 => "imm8",
            OperandType::imm16 => "imm16",
            OperandType::imm32 => "imm32",
            OperandType::imm64 => "imm64",
            OperandType::al => "al",
            OperandType::cl => "cl",
            OperandType::r8 => "r8",
            OperandType::r8l => "r8l",
            OperandType::ax => "ax",
            OperandType::r16 => "r16",
            OperandType::r16l => "r16l",
            OperandType::eax => "eax",
            OperandType::r32 => "r32",
            OperandType::r32l => "r32l",
            OperandType::rax => "rax",
            OperandType::r64 => "r64",
            OperandType::mm => "mm",
            OperandType::xmm0 => "xmm0",
            OperandType::xmm => "xmm",
            OperandType::xmm_k => "xmm{k}",
            OperandType::xmm_k_z => "xmm{k}{z}",
            OperandType::ymm => "ymm",
            OperandType::ymm_k => "ymm{k}",
            OperandType::ymm_k_z => "ymm{k}{z}",
            OperandType::zmm => "zmm",
            OperandType::zmm_k => "zmm{k}",
            OperandType::zmm_k_z => "zmm{k}{z}",
            OperandType::k => "k",
            OperandType::k_k => "k{k}",
            OperandType::moffs32 => "moffs32",
            OperandType::moffs64 => "moffs64",
            OperandType::m => "m",
            OperandType::m8 => "m8",
            OperandType::m16 => "m16",
            OperandType::m16_k => "m16{k}",
            OperandType::m16_k_z => "m16{k}{z}",
            OperandType::m32 => "m32",
            OperandType::m32_k => "m32{k}",
            OperandType::m32_k_z => "m32{k}{z}",
            OperandType::m32_m16bcst => "m32/m16bcst",
            OperandType::m64 => "m64",
            OperandType::m64_k => "m64{k}",
            OperandType::m64_k_z => "m64{k}{z}",
            OperandType::m64_m16bcst => "m64/m16bcst",
            OperandType::m128 => "m128",
            OperandType::m128_k => "m128{k}",
            OperandType::m128_k_z => "m128{k}{z}",
            OperandType::m256 => "m256",
            OperandType::m256_k => "m256{k}",
            OperandType::m256_k_z => "m256{k}{z}",
            OperandType::m512 => "m512",
            OperandType::m512_k => "m512{k}",
            OperandType::m512_k_z => "m512{k}{z}",
            OperandType::m64_m32bcst => "m64/m32bcst",
            OperandType::m128_m32bcst => "m128/m32bcst",
            OperandType::m256_m32bcst => "m256/m32bcst",
            OperandType::m512_m32bcst => "m512/m32bcst",
            OperandType::m128_m16bcst => "m128/m16bcst",
            OperandType::m128_m64bcst => "m128/m64bcst",
            OperandType::m256_m16bcst => "m256/m16bcst",
            OperandType::m256_m64bcst => "m256/m64bcst",
            OperandType::m512_m16bcst => "m512/m16bcst",
            OperandType::m512_m64bcst => "m512/m64bcst",
            OperandType::vm32x => "vm32x",
            OperandType::vm32x_k => "vm32x{k}",
            OperandType::vm64x => "vm64x",
            OperandType::vm64xk => "vm64x{k}",
            OperandType::vm32y => "vm32y",
            OperandType::vm32yk_ => "vm32y{k}",
            OperandType::vm64y => "vm64y",
            OperandType::vm64y_k => "vm64y{k}",
            OperandType::vm32z => "vm32z",
            OperandType::vm32z_k => "vm32z{k}",
            OperandType::vm64z => "vm64z",
            OperandType::vm64z_k => "vm64z{k}",
            OperandType::rel8 => "rel8",
            OperandType::rel32 => "rel32",
            OperandType::er => "{er}",
            OperandType::sae => "{sae}",
            OperandType::sibmem => "sibmem",
            OperandType::tmm => "tmm",
        }
    }

    /// The operand type with the given spelling, looked for among all of them.
    fn with_surface(token: &str) -> (found: Option<OperandType>)
        ensures
            found matches Some(operand_type) ==> operand_type.surface() == token@,
            found is None ==> forall|t: OperandType| t.surface() != token@,
    {
        if str_eq(token, "1") {
            Some(OperandType::_1)
        } else if str_eq(token, "3") {
            Some(OperandType::_3)
        } else if str_eq(token, "imm4") {
            Some(OperandType::imm4)
        } else if str_eq(token, "imm8") {
            Some(OperandType::imm8)
        } else if str_eq(token, "imm16") {
            Some(OperandType::imm16)
        } else if str_eq(token, "imm32") {
            Some(OperandType::imm32)
        } else if str_eq(token, "imm64") {
            Some(OperandType::imm64)
        } else if str_eq(token, "al") {
            Some(OperandType::al)
        } else if str_eq(token, "cl") {
            Some(OperandType::cl)
        } else if str_eq(token, "r8") {
            Some(OperandType::r8)
        } else if str_eq(token, "r8l") {
            Some(OperandType::r8l)
        } else if str_eq(token, "ax") {
            Some(OperandType::ax)
        } else if str_eq(token, "r16") {
            Some(OperandType::r16)
        } else if str_eq(token, "r16l") {
            Some(OperandType::r16l)
        } else if str_eq(token, "eax") {
            Some(OperandType::eax)
        } else if str_eq(token, "r32") {
            Some(OperandType::r32)
        } else if str_eq(token, "r32l") {
            Some(OperandType::r32l)
        } else if str_eq(token, "rax") {
            Some(OperandType::rax)
        } else if str_eq(token, "r64") {
            Some(OperandType::r64)
        } else if str_eq(token, "mm") {
            Some(OperandType::mm)
        } else if str_eq(token, "xmm0") {
            Some(OperandType::xmm0)
        } else if str_eq(token, "xmm") {
            Some(OperandType::xmm)
        } else if str_eq(token, "xmm{k}") {
            Some(OperandType::xmm_k)
        } else if str_eq(token, "xmm{k}{z}") {
            Some(OperandType::xmm_k_z)
        } else if str_eq(token, "ymm") {
            Some(OperandType::ymm)
        } else if str_eq(token, "ymm{k}") {
            Some(OperandType::ymm_k)
        } else if str_eq(token, "ymm{k}{z}") {
            Some(OperandType::ymm_k_z)
        } else if str_eq(token, "zmm") {
            Some(OperandType::zmm)
        } else if str_eq(token, "zmm{k}") {
            Some(OperandType::zmm_k)
        } else if str_eq(token, "zmm{k}{z}") {
            Some(OperandType::zmm_k_z)
        } else if str_eq(token, "k") {
            Some(OperandType::k)
        } else if str_eq(token, "k{k}") {
            Some(OperandType::k_k)
        } else if str_eq(token, "moffs32") {
            Some(OperandType::moffs32)
        } else if str_eq(token, "moffs64") {
            Some(OperandType::moffs64)
        } else if str_eq(token, "m") {
            Some(OperandType::m)
        } else if str_eq(token, "m8") {
            Some(OperandType::m8)
        } else if str_eq(token, "m16") {
            Some(OperandType::m16)
        } else if str_eq(token, "m16{k}") {
            Some(OperandType::m16_k)
        } else if str_eq(token, "m16{k}{z}") {
            Some(OperandType::m16_k_z)
        } else if str_eq(token, "m32") {
            Some(OperandType::m32)
        } else if str_eq(token, "m32{k}") {
            Some(OperandType::m32_k)
        } else if str_eq(token, "m32{k}{z}") {
            Some(OperandType::m32_k_z)
        } else if str_eq(token, "m32/m16bcst") {
            Some(OperandType::m32_m16bcst)
        } else if str_eq(token, "m64") {
            Some(OperandType::m64)
        } else if str_eq(token, "m64{k}") {
            Some(OperandType::m64_k)
        } else if str_eq(token, "m64{k}{z}") {
            Some(OperandType::m64_k_z)
        } else if str_eq(token, "m64/m16bcst") {
            Some(OperandType::m64_m16bcst)
        } else if str_eq(token, "m128") {
            Some(OperandType::m128)
        } else if str_eq(token, "m128{k}") {
            Some(OperandType::m128_k)
        } else if str_eq(token, "m128{k}{z}") {
            Some(OperandType::m128_k_z)
        } else if str_eq(token, "m256") {
            Some(OperandType::m256)
        } else if str_eq(token, "m256{k}") {
            Some(OperandType::m256_k)
        } else if str_eq(token, "m256{k}{z}") {
            Some(OperandType::m256_k_z)
        } else if str_eq(token, "m512") {
            Some(OperandType::m512)
        } else if str_eq(token, "m512{k}") {
            Some(OperandType::m512_k)
        } else if str_eq(token, "m512{k}{z}") {
            Some(OperandType::m512_k_z)
        } else if str_eq(token, "m64/m32bcst") {
            Some(OperandType::m64_m32bcst)
        } else if str_eq(token, "m128/m32bcst") {
            Some(OperandType::m128_m32bcst)
        } else if str_eq(token, "m256/m32bcst") {
            Some(OperandType::m256_m32bcst)
        } else if str_eq(token, "m512/m32bcst") {
            Some(OperandType::m512_m32bcst)
        } else if str_eq(token, "m128/m16bcst") {
            Some(OperandType::m128_m16bcst)
        } else if str_eq(token, "m128/m64bcst") {
            Some(OperandType::m128_m64bcst)
        } else if str_eq(token, "m256/m16bcst") {
            Some(OperandType::m256_m16bcst)
        } else if str_eq(token, "m256/m64bcst") {
            Some(OperandType::m256_m64bcst)
        } else if str_eq(token, "m512/m16bcst") {
            Some(OperandType::m512_m16bcst)
        } else if str_eq(token, "m512/m64bcst") {
            Some(OperandType::m512_m64bcst)
        } else if str_eq(token, "vm32x") {
            Some(OperandType::vm32x)
        } else if str_eq(token, "vm32x{k}") {
            Some(OperandType::vm32x_k)
        } else if str_eq(token, "vm64x") {
            Some(OperandType::vm64x)
        } else if str_eq(token, "vm64x{k}") {
            Some(OperandType::vm64xk)
        } else if str_eq(token, "vm32y") {
            Some(OperandType::vm32y)
        } else if str_eq(token, "vm32y{k}") {
            Some(OperandType::vm32yk_)
        } else if str_eq(token, "vm64y") {
            Some(OperandType::vm64y)
        } else if str_eq(token, "vm64y{k}") {
            Some(OperandType::vm64y_k)
        } else if str_eq(token, "vm32z") {
            Some(OperandType::vm32z)
        } else if str_eq(token, "vm32z{k}") {
            Some(OperandType::vm32z_k)
        } else if str_eq(token, "vm64z") {
            Some(OperandType::vm64z)
        } else if str_eq(token, "vm64z{k}") {
            Some(OperandType::vm64z_k)
        } else if str_eq(token, "rel8") {
            Some(OperandType::rel8)
        } else if str_eq(token, "rel32") {
            Some(OperandType::rel32)
        } else if str_eq(token, "{er}") {
            Some(OperandType::er)
        } else if str_eq(token, "{sae}") {
            Some(OperandType::sae)
        } else if str_eq(token, "sibmem") {
            Some(OperandType::sibmem)
        } else if str_eq(token, "tmm") {
            Some(OperandType::tmm)
        } else {
            None
        }
    }

    /// Reads an operand type from its spelling, which must match exactly, case
    /// included. Any other string is refused, and handed back in the error.
    pub fn parse(token: &str) -> (r: Result<OperandType, ParseError>)
        ensures
            r matches Ok(operand_type) ==> operand_type_of(token@) == Some(operand_type),
            r matches Err(e) ==> operand_type_of(token@) is None
                && e@ == ParseErrorView::UnknownOperandType(token@),
    {
        proof {
            lemma_surface_is_injective();
        }
        match OperandType::with_surface(token) {
            Some(operand_type) => Ok(operand_type),
            None => Err(ParseError::UnknownOperandType(String::from_str(token))),
        }
    }
}

/// The operand type that a string spells, if it spells one.
pub open spec fn operand_type_of(token: Seq<char>) -> Option<OperandType> {
    if exists|t: OperandType| t.surface() == token {
        Some(choose|t: OperandType| t.surface() == token)
    } else {
        None
    }
}

/// No two operand types share a spelling.
pub proof fn lemma_surface_is_injective()
    ensures
        forall|a: OperandType, b: OperandType| a.surface() == b.surface() ==> a == b,
{
    reveal_strlit("1");
    assert("1"@.len() == 1 && "1"@[0] == '1');
    reveal_strlit("3");
    assert("3"@.len() == 1 && "3"@[0] == '3');
    reveal_strlit("imm4");
    assert("imm4"@.len() == 4 && "imm4"@[0] == 'i' && "imm4"@[1] == 'm' && "imm4"@[2] == 'm' && "imm4"@[3] == '4');
    reveal_strlit("imm8");
    assert("imm8"@.len() == 4 && "imm8"@[0] == 'i' && "imm8"@[1] == 'm' && "imm8"@[2] == 'm' && "imm8"@[3] == '8');
    reveal_strlit("imm16");
    assert("imm16"@.len() == 5 && "imm16"@[0] == 'i' && "imm16"@[1] == 'm' && "imm16"@[2] == 'm' && "imm16"@[3] == '1' && "imm16"@[4] == '6');
    reveal_strlit("imm32");
    assert("imm32"@.len() == 5 && "imm32"@[0] == 'i' && "imm32"@[1] == 'm' && "imm32"@[2] == 'm' && "imm32"@[3] == '3' && "imm32"@[4] == '2');
    reveal_strlit("imm64");
    assert("imm64"@.len() == 5 && "imm64"@[0] == 'i' && "imm64"@[1] == 'm' && "imm64"@[2] == 'm' && "imm64"@[3] == '6' && "imm64"@[4] == '4');
    reveal_strlit("al");
    assert("al"@.len() == 2 && "al"@[0] == 'a' && "al"@[1] == 'l');
    reveal_strlit("cl");
    assert("cl"@.len() == 2 && "cl"@[0] == 'c' && "cl"@[1] == 'l');
    reveal_strlit("r8");
    assert("r8"@.len() == 2 && "r8"@[0] == 'r' && "r8"@[1] == '8');
    reveal_strlit("r8l");
    assert("r8l"@.len() == 3 && "r8l"@[0] == 'r' && "r8l"@[1] == '8' && "r8l"@[2] == 'l');
    reveal_strlit("ax");
    assert("ax"@.len() == 2 && "ax"@[0] == 'a' && "ax"@[1] == 'x');
    reveal_strlit("r16");
    assert("r16"@.len() == 3 && "r16"@[0] == 'r' && "r16"@[1] == '1' && "r16"@[2] == '6');
    reveal_strlit("r16l");
    assert("r16l"@.len() == 4 && "r16l"@[0] == 'r' && "r16l"@[1] == '1' && "r16l"@[2] == '6' && "r16l"@[3] == 'l');
    reveal_strlit("eax");
    assert("eax"@.len() == 3 && "eax"@[0] == 'e' && "eax"@[1] == 'a' && "eax"@[2] == 'x');
    reveal_strlit("r32");
    assert("r32"@.len() == 3 && "r32"@[0] == 'r' && "r32"@[1] == '3' && "r32"@[2] == '2');
    reveal_strlit("r32l");
    assert("r32l"@.len() == 4 && "r32l"@[0] == 'r' && "r32l"@[1] == '3' && "r32l"@[2] == '2' && "r32l"@[3] == 'l');
    reveal_strlit("rax");
    assert("rax"@.len() == 3 && "rax"@[0] == 'r' && "rax"@[1] == 'a' && "rax"@[2] == 'x');
    reveal_strlit("r64");
    assert("r64"@.len() == 3 && "r64"@[0] == 'r' && "r64"@[1] == '6' && "r64"@[2] == '4');
    reveal_strlit("mm");
    assert("mm"@.len() == 2 && "mm"@[0] == 'm' && "mm"@[1] == 'm');
    reveal_strlit("xmm0");
    assert("xmm0"@.len() == 4 && "xmm0"@[0] == 'x' && "xmm0"@[1] == 'm' && "xmm0"@[2] == 'm' && "xmm0"@[3] == '0');
    reveal_strlit("xmm");
    assert("xmm"@.len() == 3 && "xmm"@[0] == 'x' && "xmm"@[1] == 'm' && "xmm"@[2] == 'm');
    reveal_strlit("xmm{k}");
    assert("xmm{k}"@.len() == 6 && "xmm{k}"@[0] == 'x' && "xmm{k}"@[1] == 'm' && "xmm{k}"@[2] == 'm' && "xmm{k}"@[3] == '{' && "xmm{k}"@[4] == 'k' && "xmm{k}"@[5] == '}');
    reveal_strlit("xmm{k}{z}");
    assert("xmm{k}{z}"@.len() == 9 && "xmm{k}{z}"@[0] == 'x' && "xmm{k}{z}"@[1] == 'm' && "xmm{k}{z}"@[2] == 'm' && "xmm{k}{z}"@[3] == '{' && "xmm{k}{z}"@[4] == 'k' && "xmm{k}{z}"@[5] == '}' && "xmm{k}{z}"@[6] == '{' && "xmm{k}{z}"@[7] == 'z' && "xmm{k}{z}"@[8] == '}');
    reveal_strlit("ymm");
    assert("ymm"@.len() == 3 && "ymm"@[0] == 'y' && "ymm"@[1] == 'm' && "ymm"@[2] == 'm');
    reveal_strlit("ymm{k}");
    assert("ymm{k}"@.len() == 6 && "ymm{k}"@[0] == 'y' && "ymm{k}"@[1] == 'm' && "ymm{k}"@[2] == 'm' && "ymm{k}"@[3] == '{' && "ymm{k}"@[4] == 'k' && "ymm{k}"@[5] == '}');
    reveal_strlit("ymm{k}{z}");
    assert("ymm{k}{z}"@.len() == 9 && "ymm{k}{z}"@[0] == 'y' && "ymm{k}{z}"@[1] == 'm' && "ymm{k}{z}"@[2] == 'm' && "ymm{k}{z}"@[3] == '{' && "ymm{k}{z}"@[4] == 'k' && "ymm{k}{z}"@[5] == '}' && "ymm{k}{z}"@[6] == '{' && "ymm{k}{z}"@[7] == 'z' && "ymm{k}{z}"@[8] == '}');
    reveal_strlit("zmm");
    assert("zmm"@.len() == 3 && "zmm"@[0] == 'z' && "zmm"@[1] == 'm' && "zmm"@[2] == 'm');
    reveal_strlit("zmm{k}");
    assert("zmm{k}"@.len() == 6 && "zmm{k}"@[0] == 'z' && "zmm{k}"@[1] == 'm' && "zmm{k}"@[2] == 'm' && "zmm{k}"@[3] == '{' && "zmm{k}"@[4] == 'k' && "zmm{k}"@[5] == '}');
    reveal_strlit("zmm{k}{z}");
    assert("zmm{k}{z}"@.len() == 9 && "zmm{k}{z}"@[0] == 'z' && "zmm{k}{z}"@[1] == 'm' && "zmm{k}{z}"@[2] == 'm' && "zmm{k}{z}"@[3] == '{' && "zmm{k}{z}"@[4] == 'k' && "zmm{k}{z}"@[5] == '}' && "zmm{k}{z}"@[6] == '{' && "zmm{k}{z}"@[7] == 'z' && "zmm{k}{z}"@[8] == '}');
    reveal_strlit("k");
    assert("k"@.len() == 1 && "k"@[0] == 'k');
    reveal_strlit("k{k}");
    assert("k{k}"@.len() == 4 && "k{k}"@[0] == 'k' && "k{k}"@[1] == '{' && "k{k}"@[2] == 'k' && "k{k}"@[3] == '}');
    reveal_strlit("moffs32");
    assert("moffs32"@.len() == 7 && "moffs32"@[0] == 'm' && "moffs32"@[1] == 'o' && "moffs32"@[2] == 'f' && "moffs32"@[3] == 'f' && "moffs32"@[4] == 's' && "moffs32"@[5] == '3' && "moffs32"@[6] == '2');
    reveal_strlit("moffs64");
    assert("moffs64"@.len() == 7 && "moffs64"@[0] == 'm' && "moffs64"@[1] == 'o' && "moffs64"@[2] == 'f' && "moffs64"@[3] == 'f' && "moffs64"@[4] == 's' && "moffs64"@[5] == '6' && "moffs64"@[6] == '4');
    reveal_strlit("m");
    assert("m"@.len() == 1 && "m"@[0] == 'm');
    reveal_strlit("m8");
    assert("m8"@.len() == 2 && "m8"@[0] == 'm' && "m8"@[1] == '8');
    reveal_strlit("m16");
    assert("m16"@.len() == 3 && "m16"@[0] == 'm' && "m16"@[1] == '1' && "m16"@[2] == '6');
    reveal_strlit("m16{k}");
    assert("m16{k}"@.len() == 6 && "m16{k}"@[0] == 'm' && "m16{k}"@[1] == '1' && "m16{k}"@[2] == '6' && "m16{k}"@[3] == '{' && "m16{k}"@[4] == 'k' && "m16{k}"@[5] == '}');
    reveal_strlit("m16{k}{z}");
    assert("m16{k}{z}"@.len() == 9 && "m16{k}{z}"@[0] == 'm' && "m16{k}{z}"@[1] == '1' && "m16{k}{z}"@[2] == '6' && "m16{k}{z}"@[3] == '{' && "m16{k}{z}"@[4] == 'k' && "m16{k}{z}"@[5] == '}' && "m16{k}{z}"@[6] == '{' && "m16{k}{z}"@[7] == 'z' && "m16{k}{z}"@[8] == '}');
    reveal_strlit("m32");
    assert("m32"@.len() == 3 && "m32"@[0] == 'm' && "m32"@[1] == '3' && "m32"@[2] == '2');
    reveal_strlit("m32{k}");
    assert("m32{k}"@.len() == 6 && "m32{k}"@[0] == 'm' && "m32{k}"@[1] == '3' && "m32{k}"@[2] == '2' && "m32{k}"@[3] == '{' && "m32{k}"@[4] == 'k' && "m32{k}"@[5] == '}');
    reveal_strlit("m32{k}{z}");
    assert("m32{k}{z}"@.len() == 9 && "m32{k}{z}"@[0] == 'm' && "m32{k}{z}"@[1] == '3' && "m32{k}{z}"@[2] == '2' && "m32{k}{z}"@[3] == '{' && "m32{k}{z}"@[4] == 'k' && "m32{k}{z}"@[5] == '}' && "m32{k}{z}"@[6] == '{' && "m32{k}{z}"@[7] == 'z' && "m32{k}{z}"@[8] == '}');
    reveal_strlit("m32/m16bcst");
    assert("m32/m16bcst"@.len() == 11 && "m32/m16bcst"@[0] == 'm' && "m32/m16bcst"@[1] == '3' && "m32/m16bcst"@[2] == '2' && "m32/m16bcst"@[3] == '/' && "m32/m16bcst"@[4] == 'm' && "m32/m16bcst"@[5] == '1' && "m32/m16bcst"@[6] == '6' && "m32/m16bcst"@[7] == 'b' && "m32/m16bcst"@[8] == 'c' && "m32/m16bcst"@[9] == 's' && "m32/m16bcst"@[10] == 't');
    reveal_strlit("m64");
    assert("m64"@.len() == 3 && "m64"@[0] == 'm' && "m64"@[1] == '6' && "m64"@[2] == '4');
    reveal_strlit("m64{k}");
    assert("m64{k}"@.len() == 6 && "m64{k}"@[0] == 'm' && "m64{k}"@[1] == '6' && "m64{k}"@[2] == '4' && "m64{k}"@[3] == '{' && "m64{k}"@[4] == 'k' && "m64{k}"@[5] == '}');
    reveal_strlit("m64{k}{z}");
    assert("m64{k}{z}"@.len() == 9 && "m64{k}{z}"@[0] == 'm' && "m64{k}{z}"@[1] == '6' && "m64{k}{z}"@[2] == '4' && "m64{k}{z}"@[3] == '{' && "m64{k}{z}"@[4] == 'k' && "m64{k}{z}"@[5] == '}' && "m64{k}{z}"@[6] == '{' && "m64{k}{z}"@[7] == 'z' && "m64{k}{z}"@[8] == '}');
    reveal_strlit("m64/m16bcst");
    assert("m64/m16bcst"@.len() == 11 && "m64/m16bcst"@[0] == 'm' && "m64/m16bcst"@[1] == '6' && "m64/m16bcst"@[2] == '4' && "m64/m16bcst"@[3] == '/' && "m64/m16bcst"@[4] == 'm' && "m64/m16bcst"@[5] == '1' && "m64/m16bcst"@[6] == '6' && "m64/m16bcst"@[7] == 'b' && "m64/m16bcst"@[8] == 'c' && "m64/m16bcst"@[9] == 's' && "m64/m16bcst"@[10] == 't');
    reveal_strlit("m128");
    assert("m128"@.len() == 4 && "m128"@[0] == 'm' && "m128"@[1] == '1' && "m128"@[2] == '2' && "m128"@[3] == '8');
    reveal_strlit("m128{k}");
    assert("m128{k}"@.len() == 7 && "m128{k}"@[0] == 'm' && "m128{k}"@[1] == '1' && "m128{k}"@[2] == '2' && "m128{k}"@[3] == '8' && "m128{k}"@[4] == '{' && "m128{k}"@[5] == 'k' && "m128{k}"@[6] == '}');
    reveal_strlit("m128{k}{z}");
    assert("m128{k}{z}"@.len() == 10 && "m128{k}{z}"@[0] == 'm' && "m128{k}{z}"@[1] == '1' && "m128{k}{z}"@[2] == '2' && "m128{k}{z}"@[3] == '8' && "m128{k}{z}"@[4] == '{' && "m128{k}{z}"@[5] == 'k' && "m128{k}{z}"@[6] == '}' && "m128{k}{z}"@[7] == '{' && "m128{k}{z}"@[8] == 'z' && "m128{k}{z}"@[9] == '}');
    reveal_strlit("m256");
    assert("m256"@.len() == 4 && "m256"@[0] == 'm' && "m256"@[1] == '2' && "m256"@[2] == '5' && "m256"@[3] == '6');
    reveal_strlit("m256{k}");
    assert("m256{k}"@.len() == 7 && "m256{k}"@[0] == 'm' && "m256{k}"@[1] == '2' && "m256{k}"@[2] == '5' && "m256{k}"@[3] == '6' && "m256{k}"@[4] == '{' && "m256{k}"@[5] == 'k' && "m256{k}"@[6] == '}');
    reveal_strlit("m256{k}{z}");
    assert("m256{k}{z}"@.len() == 10 && "m256{k}{z}"@[0] == 'm' && "m256{k}{z}"@[1] == '2' && "m256{k}{z}"@[2] == '5' && "m256{k}{z}"@[3] == '6' && "m256{k}{z}"@[4] == '{' && "m256{k}{z}"@[5] == 'k' && "m256{k}{z}"@[6] == '}' && "m256{k}{z}"@[7] == '{' && "m256{k}{z}"@[8] == 'z' && "m256{k}{z}"@[9] == '}');
    reveal_strlit("m512");
    assert("m512"@.len() == 4 && "m512"@[0] == 'm' && "m512"@[1] == '5' && "m512"@[2] == '1' && "m512"@[3] == '2');
    reveal_strlit("m512{k}");
    assert("m512{k}"@.len() == 7 && "m512{k}"@[0] == 'm' && "m512{k}"@[1] == '5' && "m512{k}"@[2] == '1' && "m512{k}"@[3] == '2' && "m512{k}"@[4] == '{' && "m512{k}"@[5] == 'k' && "m512{k}"@[6] == '}');
    reveal_strlit("m512{k}{z}");
    assert("m512{k}{z}"@.len() == 10 && "m512{k}{z}"@[0] == 'm' && "m512{k}{z}"@[1] == '5' && "m512{k}{z}"@[2] == '1' && "m512{k}{z}"@[3] == '2' && "m512{k}{z}"@[4] == '{' && "m512{k}{z}"@[5] == 'k' && "m512{k}{z}"@[6] == '}' && "m512{k}{z}"@[7] == '{' && "m512{k}{z}"@[8] == 'z' && "m512{k}{z}"@[9] == '}');
    reveal_strlit("m64/m32bcst");
    assert("m64/m32bcst"@.len() == 11 && "m64/m32bcst"@[0] == 'm' && "m64/m32bcst"@[1] == '6' && "m64/m32bcst"@[2] == '4' && "m64/m32bcst"@[3] == '/' && "m64/m32bcst"@[4] == 'm' && "m64/m32bcst"@[5] == '3' && "m64/m32bcst"@[6] == '2' && "m64/m32bcst"@[7] == 'b' && "m64/m32bcst"@[8] == 'c' && "m64/m32bcst"@[9] == 's' && "m64/m32bcst"@[10] == 't');
    reveal_strlit("m128/m32bcst");
    assert("m128/m32bcst"@.len() == 12 && "m128/m32bcst"@[0] == 'm' && "m128/m32bcst"@[1] == '1' && "m128/m32bcst"@[2] == '2' && "m128/m32bcst"@[3] == '8' && "m128/m32bcst"@[4] == '/' && "m128/m32bcst"@[5] == 'm' && "m128/m32bcst"@[6] == '3' && "m128/m32bcst"@[7] == '2' && "m128/m32bcst"@[8] == 'b' && "m128/m32bcst"@[9] == 'c' && "m128/m32bcst"@[10] == 's' && "m128/m32bcst"@[11] == 't');
    reveal_strlit("m256/m32bcst");
    assert("m256/m32bcst"@.len() == 12 && "m256/m32bcst"@[0] == 'm' && "m256/m32bcst"@[1] == '2' && "m256/m32bcst"@[2] == '5' && "m256/m32bcst"@[3] == '6' && "m256/m32bcst"@[4] == '/' && "m256/m32bcst"@[5] == 'm' && "m256/m32bcst"@[6] == '3' && "m256/m32bcst"@[7] == '2' && "m256/m32bcst"@[8] == 'b' && "m256/m32bcst"@[9] == 'c' && "m256/m32bcst"@[10] == 's' && "m256/m32bcst"@[11] == 't');
    reveal_strlit("m512/m32bcst");
    assert("m512/m32bcst"@.len() == 12 && "m512/m32bcst"@[0] == 'm' && "m512/m32bcst"@[1] == '5' && "m512/m32bcst"@[2] == '1' && "m512/m32bcst"@[3] == '2' && "m512/m32bcst"@[4] == '/' && "m512/m32bcst"@[5] == 'm' && "m512/m32bcst"@[6] == '3' && "m512/m32bcst"@[7] == '2' && "m512/m32bcst"@[8] == 'b' && "m512/m32bcst"@[9] == 'c' && "m512/m32bcst"@[10] == 's' && "m512/m32bcst"@[11] == 't');
    reveal_strlit("m128/m16bcst");
    assert("m128/m16bcst"@.len() == 12 && "m128/m16bcst"@[0] == 'm' && "m128/m16bcst"@[1] == '1' && "m128/m16bcst"@[2] == '2' && "m128/m16bcst"@[3] == '8' && "m128/m16bcst"@[4] == '/' && "m128/m16bcst"@[5] == 'm' && "m128/m16bcst"@[6] == '1' && "m128/m16bcst"@[7] == '6' && "m128/m16bcst"@[8] == 'b' && "m128/m16bcst"@[9] == 'c' && "m128/m16bcst"@[10] == 's' && "m128/m16bcst"@[11] == 't');
    reveal_strlit("m128/m64bcst");
    assert("m128/m64bcst"@.len() == 12 && "m128/m64bcst"@[0] == 'm' && "m128/m64bcst"@[1] == '1' && "m128/m64bcst"@[2] == '2' && "m128/m64bcst"@[3] == '8' && "m128/m64bcst"@[4] == '/' && "m128/m64bcst"@[5] == 'm' && "m128/m64bcst"@[6] == '6' && "m128/m64bcst"@[7] == '4' && "m128/m64bcst"@[8] == 'b' && "m128/m64bcst"@[9] == 'c' && "m128/m64bcst"@[10] == 's' && "m128/m64bcst"@[11] == 't');
    reveal_strlit("m256/m16bcst");
    assert("m256/m16bcst"@.len() == 12 && "m256/m16bcst"@[0] == 'm' && "m256/m16bcst"@[1] == '2' && "m256/m16bcst"@[2] == '5' && "m256/m16bcst"@[3] == '6' && "m256/m16bcst"@[4] == '/' && "m256/m16bcst"@[5] == 'm' && "m256/m16bcst"@[6] == '1' && "m256/m16bcst"@[7] == '6' && "m256/m16bcst"@[8] == 'b' && "m256/m16bcst"@[9] == 'c' && "m256/m16bcst"@[10] == 's' && "m256/m16bcst"@[11] == 't');
    reveal_strlit("m256/m64bcst");
    assert("m256/m64bcst"@.len() == 12 && "m256/m64bcst"@[0] == 'm' && "m256/m64bcst"@[1] == '2' && "m256/m64bcst"@[2] == '5' && "m256/m64bcst"@[3] == '6' && "m256/m64bcst"@[4] == '/' && "m256/m64bcst"@[5] == 'm' && "m256/m64bcst"@[6] == '6' && "m256/m64bcst"@[7] == '4' && "m256/m64bcst"@[8] == 'b' && "m256/m64bcst"@[9] == 'c' && "m256/m64bcst"@[10] == 's' && "m256/m64bcst"@[11] == 't');
    reveal_strlit("m512/m16bcst");
    assert("m512/m16bcst"@.len() == 12 && "m512/m16bcst"@[0] == 'm' && "m512/m16bcst"@[1] == '5' && "m512/m16bcst"@[2] == '1' && "m512/m16bcst"@[3] == '2' && "m512/m16bcst"@[4] == '/' && "m512/m16bcst"@[5] == 'm' && "m512/m16bcst"@[6] == '1' && "m512/m16bcst"@[7] == '6' && "m512/m16bcst"@[8] == 'b' && "m512/m16bcst"@[9] == 'c' && "m512/m16bcst"@[10] == 's' && "m512/m16bcst"@[11] == 't');
    reveal_strlit("m512/m64bcst");
    assert("m512/m64bcst"@.len() == 12 && "m512/m64bcst"@[0] == 'm' && "m512/m64bcst"@[1] == '5' && "m512/m64bcst"@[2] == '1' && "m512/m64bcst"@[3] == '2' && "m512/m64bcst"@[4] == '/' && "m512/m64bcst"@[5] == 'm' && "m512/m64bcst"@[6] == '6' && "m512/m64bcst"@[7] == '4' && "m512/m64bcst"@[8] == 'b' && "m512/m64bcst"@[9] == 'c' && "m512/m64bcst"@[10] == 's' && "m512/m64bcst"@[11] == 't');
    reveal_strlit("vm32x");
    assert("vm32x"@.len() == 5 && "vm32x"@[0] == 'v' && "vm32x"@[1] == 'm' && "vm32x"@[2] == '3' && "vm32x"@[3] == '2' && "vm32x"@[4] == 'x');
    reveal_strlit("vm32x{k}");
    assert("vm32x{k}"@.len() == 8 && "vm32x{k}"@[0] == 'v' && "vm32x{k}"@[1] == 'm' && "vm32x{k}"@[2] == '3' && "vm32x{k}"@[3] == '2' && "vm32x{k}"@[4] == 'x' && "vm32x{k}"@[5] == '{' && "vm32x{k}"@[6] == 'k' && "vm32x{k}"@[7] == '}');
    reveal_strlit("vm64x");
    assert("vm64x"@.len() == 5 && "vm64x"@[0] == 'v' && "vm64x"@[1] == 'm' && "vm64x"@[2] == '6' && "vm64x"@[3] == '4' && "vm64x"@[4] == 'x');
    reveal_strlit("vm64x{k}");
    assert("vm64x{k}"@.len() == 8 && "vm64x{k}"@[0] == 'v' && "vm64x{k}"@[1] == 'm' && "vm64x{k}"@[2] == '6' && "vm64x{k}"@[3] == '4' && "vm64x{k}"@[4] == 'x' && "vm64x{k}"@[5] == '{' && "vm64x{k}"@[6] == 'k' && "vm64x{k}"@[7] == '}');
    reveal_strlit("vm32y");
    assert("vm32y"@.len() == 5 && "vm32y"@[0] == 'v' && "vm32y"@[1] == 'm' && "vm32y"@[2] == '3' && "vm32y"@[3] == '2' && "vm32y"@[4] == 'y');
    reveal_strlit("vm32y{k}");
    assert("vm32y{k}"@.len() == 8 && "vm32y{k}"@[0] == 'v' && "vm32y{k}"@[1] == 'm' && "vm32y{k}"@[2] == '3' && "vm32y{k}"@[3] == '2' && "vm32y{k}"@[4] == 'y' && "vm32y{k}"@[5] == '{' && "vm32y{k}"@[6] == 'k' && "vm32y{k}"@[7] == '}');
    reveal_strlit("vm64y");
    assert("vm64y"@.len() == 5 && "vm64y"@[0] == 'v' && "vm64y"@[1] == 'm' && "vm64y"@[2] == '6' && "vm64y"@[3] == '4' && "vm64y"@[4] == 'y');
    reveal_strlit("vm64y{k}");
    assert("vm64y{k}"@.len() == 8 && "vm64y{k}"@[0] == 'v' && "vm64y{k}"@[1] == 'm' && "vm64y{k}"@[2] == '6' && "vm64y{k}"@[3] == '4' && "vm64y{k}"@[4] == 'y' && "vm64y{k}"@[5] == '{' && "vm64y{k}"@[6] == 'k' && "vm64y{k}"@[7] == '}');
    reveal_strlit("vm32z");
    assert("vm32z"@.len() == 5 && "vm32z"@[0] == 'v' && "vm32z"@[1] == 'm' && "vm32z"@[2] == '3' && "vm32z"@[3] == '2' && "vm32z"@[4] == 'z');
    reveal_strlit("vm32z{k}");
    assert("vm32z{k}"@.len() == 8 && "vm32z{k}"@[0] == 'v' && "vm32z{k}"@[1] == 'm' && "vm32z{k}"@[2] == '3' && "vm32z{k}"@[3] == '2' && "vm32z{k}"@[4] == 'z' && "vm32z{k}"@[5] == '{' && "vm32z{k}"@[6] == 'k' && "vm32z{k}"@[7] == '}');
    reveal_strlit("vm64z");
    assert("vm64z"@.len() == 5 && "vm64z"@[0] == 'v' && "vm64z"@[1] == 'm' && "vm64z"@[2] == '6' && "vm64z"@[3] == '4' && "vm64z"@[4] == 'z');
    reveal_strlit("vm64z{k}");
    assert("vm64z{k}"@.len() == 8 && "vm64z{k}"@[0] == 'v' && "vm64z{k}"@[1] == 'm' && "vm64z{k}"@[2] == '6' && "vm64z{k}"@[3] == '4' && "vm64z{k}"@[4] == 'z' && "vm64z{k}"@[5] == '{' && "vm64z{k}"@[6] == 'k' && "vm64z{k}"@[7] == '}');
    reveal_strlit("rel8");
    assert("rel8"@.len() == 4 && "rel8"@[0] == 'r' && "rel8"@[1] == 'e' && "rel8"@[2] == 'l' && "rel8"@[3] == '8');
    reveal_strlit("rel32");
    assert("rel32"@.len() == 5 && "rel32"@[0] == 'r' && "rel32"@[1] == 'e' && "rel32"@[2] == 'l' && "rel32"@[3] == '3' && "rel32"@[4] == '2');
    reveal_strlit("{er}");
    assert("{er}"@.len() == 4 && "{er}"@[0] == '{' && "{er}"@[1] == 'e' && "{er}"@[2] == 'r' && "{er}"@[3] == '}');
    reveal_strlit("{sae}");
    assert("{sae}"@.len() == 5 && "{sae}"@[0] == '{' && "{sae}"@[1] == 's' && "{sae}"@[2] == 'a' && "{sae}"@[3] == 'e' && "{sae}"@[4] == '}');
    reveal_strlit("sibmem");
    assert("sibmem"@.len() == 6 && "sibmem"@[0] == 's' && "sibmem"@[1] == 'i' && "sibmem"@[2] == 'b' && "sibmem"@[3] == 'm' && "sibmem"@[4] == 'e' && "sibmem"@[5] == 'm');
    reveal_strlit("tmm");
    assert("tmm"@.len() == 3 && "tmm"@[0] == 't' && "tmm"@[1] == 'm' && "tmm"@[2] == 'm');
}

/// Reading the spelling of an operand type gives that operand type back.
pub proof fn lemma_surface_round_trip(operand_type: OperandType)
    ensures
        operand_type_of(operand_type.surface()) == Some(operand_type),
{
    lemma_surface_is_injective();
}

/// One operand of a form. A flag that the document leaves out is `None`, which
/// is not the same as `false`.
#[derive(Debug, Clone, Copy, PartialEq, Eq)]
pub struct Operand {
    pub op_type: OperandType,
    pub input: Option<bool>,
    pub output: Option<bool>,
}

/// One way of writing an instruction: its names in the two assembler
/// syntaxes, and its operands in the order of the document.
#[derive(Debug, PartialEq, Eq)]
pub struct InstructionForm {
    pub gas_name: Option<String>,
    pub go_name: Option<String>,
    pub encoding: String,
    pub operands: Vec<Operand>,
}

/// An `InstructionForm` in specifications.
pub struct InstructionFormView {
    pub gas_name: Option<Seq<char>>,
    pub go_name: Option<Seq<char>>,
    pub encoding: Seq<char>,
    pub operands: Seq<Operand>,
}

/// The characters of a string that may be absent.
pub open spec fn optional_text(text: Option<String>) -> Option<Seq<char>> {
    match text {
        Some(s) => Some(s@),
        None => None,
    }
}

impl InstructionFormView {
    /// The form that a start-of-form element begins with: no names, no
    /// encoding, no operands.
    pub open spec fn empty() -> InstructionFormView {
        InstructionFormView {
            gas_name: None,
            go_name: None,
            encoding: Seq::empty(),
            operands: Seq::empty(),
        }
    }
}

impl View for InstructionForm {
    type V = InstructionFormView;

    open spec fn view(&self) -> InstructionFormView {
        InstructionFormView {
            gas_name: optional_text(self.gas_name),
            go_name: optional_text(self.go_name),
            encoding: self.encoding@,
            operands: self.operands@,
        }
    }
}

fn clone_optional_text(text: &Option<String>) -> (copy: Option<String>)
    ensures
        optional_text(copy) == optional_text(*text),
{
    match text {
        Some(s) => Some(s.clone()),
        None => None,
    }
}

impl Default for InstructionForm {
    fn default() -> (form: InstructionForm)
        ensures
            form@ == InstructionFormView::empty(),
    {
        InstructionForm {
            gas_name: None,
            go_name: None,
            encoding: String::new(),
            operands: Vec::new(),
        }
    }
}

impl Clone for InstructionForm {
    fn clone(&self) -> (copy: InstructionForm)
        ensures
            copy@ == self@,
    {
        let mut operands: Vec<Operand> = Vec::new();
        let mut i: usize = 0;
        while i < self.operands.len()
            invariant
                i <= self.operands.len(),
                operands@ == self.operands@.take(i as int),
            decreases self.operands.len() - i,
        {
            operands.push(self.operands[i]);
            assert(operands@ =~= self.operands@.take(i + 1));
            i += 1;
        }
        assert(operands@ =~= self.operands@);
        InstructionForm {
            gas_name: clone_optional_text(&self.gas_name),
            go_name: clone_optional_text(&self.go_name),
            encoding: self.encoding.clone(),
            operands,
        }
    }
}

/// An instruction: its lowercase name, a summary that may be empty, and its
/// forms in the order of the document.
#[derive(Debug, PartialEq, Eq)]
pub struct Instruction {
    pub name: String,
    pub summary: String,
    pub arch: Option<Arch>,
    pub forms: Vec<InstructionForm>,
}

/// An `Instruction` in specifications.
pub struct InstructionView {
    pub name: Seq<char>,
    pub summary: Seq<char>,
    pub arch: Option<Arch>,
    pub forms: Seq<InstructionFormView>,
}

impl InstructionView {
    /// The instruction that a start-of-instruction element begins with:
    /// nothing in it.
    pub open spec fn empty() -> InstructionView {
        InstructionView {
            name: Seq::empty(),
            summary: Seq::empty(),
            arch: None,
            forms: Seq::empty(),
        }
    }
}

/// The forms of an instruction in specifications, in their order.
pub open spec fn form_views(forms: Seq<InstructionForm>) -> Seq<InstructionFormView> {
    Seq::new(forms.len(), |i: int| forms[i]@)
}

impl View for Instruction {
    type V = InstructionView;

    open spec fn view(&self) -> InstructionView {
        InstructionView {
            name: self.name@,
            summary: self.summary@,
            arch: self.arch,
            forms: form_views(self.forms@),
        }
    }
}

impl Instruction {
    /// The architecture of the instruction: the one it names, or the 64-bit
    /// one where it names none.
    pub fn architecture(&self) -> (arch: Arch)
        ensures
            arch == match self@.arch {
                Some(named) => named,
                None => Arch::x86_64,
            },
    {
        match self.arch {
            Some(named) => named,
            None => Arch::default(),
        }
    }
}

impl Default for Instruction {
    fn default() -> (instruction: Instruction)
        ensures
            instruction@ == InstructionView::empty(),
    {
        let instruction = Instruction {
            name: String::new(),
            summary: String::new(),
            arch: None,
            forms: Vec::new(),
        };
        assert(form_views(instruction.forms@) =~= Seq::empty());
        instruction
    }
}

impl Clone for Instruction {
    fn clone(&self) -> (copy: Instruction)
        ensures
            copy@ == self@,
    {
        let mut forms: Vec<InstructionForm> = Vec::new();
        let mut i: usize = 0;
        while i < self.forms.len()
            invariant
                i <= self.forms.len(),
                forms@.len() == i,
                form_views(forms@) == form_views(self.forms@).take(i as int),
            decreases self.forms.len() - i,
        {
            let ghost copied = forms@;
            forms.push(self.forms[i].clone());
            assert forall|j: int| 0 <= j < i + 1 implies form_views(forms@)[j] == form_views(
                self.forms@,
            )[j] by {
                if j < i {
                    assert(form_views(forms@)[j] == form_views(copied)[j]);
                }
            }
            assert(form_views(forms@) =~= form_views(self.forms@).take(i + 1));
            i += 1;
        }
        assert(form_views(forms@) =~= form_views(self.forms@));
        Instruction {
            name: self.name.clone(),
            summary: self.summary.clone(),
            arch: self.arch,
            forms,
        }
    }
}

} // verus!
