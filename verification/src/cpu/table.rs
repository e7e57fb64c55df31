use vstd::prelude::*;
use crate::cpu::opcode::OpCode;
use crate::cpu::{AddressingMode, Assembly};

verus! {

/// The opcode table: what each byte stands for. Bytes that name no
/// implemented instruction carry the routine that always fails.
pub open spec fn opcode_entry(byte: u8) -> OpCode {
    match byte {
        0 => OpCode { mnemonic: "BRK", size: 1, mode: AddressingMode::NoneAddressing, execute: Assembly::BRK },
        1 => OpCode { mnemonic: "ORA", size: 2, mode: AddressingMode::IndirectX, execute: Assembly::ORA },
        2 => OpCode { mnemonic: "*NOP", size: 1, mode: AddressingMode::NoneAddressing, execute: Assembly::NOP },
        3 => OpCode { mnemonic: "*SLO", size: 2, mode: AddressingMode::IndirectX, execute: Assembly::UDF },
        4 => OpCode { mnemonic: "*NOP", size: 2, mode: AddressingMode::ZeroPage, execute: Assembly::NOP },
        5 => OpCode { mnemonic: "ORA", size: 2, mode: AddressingMode::ZeroPage, execute: Assembly::ORA },
        6 => OpCode { mnemonic: "ASL", size: 2, mode: AddressingMode::ZeroPage, execute: Assembly::ASL },
        7 => OpCode { mnemonic: "*SLO", size: 2, mode: AddressingMode::ZeroPage, execute: Assembly::UDF },
        8 => OpCode { mnemonic: "PHP", size: 1, mode: AddressingMode::NoneAddressing, execute: Assembly::PHP },
        9 => OpCode { mnemonic: "ORA", size: 2, mode: AddressingMode::Immediate, execute: Assembly::ORA },
        10 => OpCode { mnemonic: "ASL", size: 1, mode: AddressingMode::NoneAddressing, execute: Assembly::ASL },
        11 => OpCode { mnemonic: "*ANC", size: 2, mode: AddressingMode::Immediate, execute: Assembly::UDF },
        12 => OpCode { mnemonic: "*NOP", size: 3, mode: AddressingMode::Absolute, execute: Assembly::NOP },
        13 => OpCode { mnemonic: "ORA", size: 3, mode: AddressingMode::Absolute, execute: Assembly::ORA },
        14 => OpCode { mnemonic: "ASL", size: 3, mode: AddressingMode::Absolute, execute: Assembly::ASL },
        15 => OpCode { mnemonic: "*SLO", size: 3, mode: AddressingMode::Absolute, execute: Assembly::UDF },
        16 => OpCode { mnemonic: "BPL", size: 2, mode: AddressingMode::Immediate, execute: Assembly::BPL },
        17 => OpCode { mnemonic: "ORA", size: 2, mode: AddressingMode::IndirectY, execute: Assembly::ORA },
        18 => OpCode { mnemonic: "*NOP", size: 1, mode: AddressingMode::NoneAddressing, execute: Assembly::NOP },
        19 => OpCode { mnemonic: "*SLO", size: 2, mode: AddressingMode::IndirectY, execute: Assembly::UDF },
        20 => OpCode { mnemonic: "*NOP", size: 2, mode: AddressingMode::ZeroPageX, execute: Assembly::NOP },
        21 => OpCode { mnemonic: "ORA", size: 2, mode: AddressingMode::ZeroPageX, execute: Assembly::ORA },
        22 => OpCode { mnemonic: "ASL", size: 2, mode: AddressingMode::ZeroPageX, execute: Assembly::ASL },
        23 => OpCode { mnemonic: "*SLO", size: 2, mode: AddressingMode::ZeroPageX, execute: Assembly::UDF },
        24 => OpCode { mnemonic: "CLC", size: 1, mode: AddressingMode::NoneAddressing, execute: Assembly::CLC },
        25 => OpCode { mnemonic: "ORA", size: 3, mode: AddressingMode::AbsoluteY, execute: Assembly::ORA },
        26 => OpCode { mnemonic: "*NOP", size: 1, mode: AddressingMode::NoneAddressing, execute: Assembly::NOP },
        27 => OpCode { mnemonic: "*SLO", size: 3, mode: AddressingMode::AbsoluteY, execute: Assembly::UDF },
        28 => OpCode { mnemonic: "*NOP", size: 3, mode: AddressingMode::AbsoluteX, execute: Assembly::NOP },
        29 => OpCode { mnemonic: "ORA", size: 3, mode: AddressingMode::AbsoluteX, execute: Assembly::ORA },
        30 => OpCode { mnemonic: "ASL", size: 3, mode: AddressingMode::AbsoluteX, execute: Assembly::ASL },
        31 => OpCode { mnemonic: "*SLO", size: 3, mode: AddressingMode::AbsoluteX, execute: Assembly::UDF },
        32 => OpCode { mnemonic: "JSR", size: 3, mode: AddressingMode::Immediate, execute: Assembly::JSR },
        33 => OpCode { mnemonic: "AND", size: 2, mode: AddressingMode::IndirectX, execute: Assembly::AND },
        34 => OpCode { mnemonic: "*NOP", size: 1, mode: AddressingMode::NoneAddressing, execute: Assembly::NOP },
        35 => OpCode { mnemonic: "*RLA", size: 2, mode: AddressingMode::IndirectX, execute: Assembly::UDF },
        36 => OpCode { mnemonic: "BIT", size: 2, mode: AddressingMode::ZeroPage, execute: Assembly::BIT },
        37 => OpCode { mnemonic: "AND", size: 2, mode: AddressingMode::ZeroPage, execute: Assembly::AND },
        38 => OpCode { mnemonic: "ROL", size: 2, mode: AddressingMode::ZeroPage, execute: Assembly::ROL },
        39 => OpCode { mnemonic: "*RLA", size: 2, mode: AddressingMode::ZeroPage, execute: Assembly::UDF },
        40 => OpCode { mnemonic: "PLP", size: 1, mode: AddressingMode::NoneAddressing, execute: Assembly::PLP },
        41 => OpCode { mnemonic: "AND", size: 2, mode: AddressingMode::Immediate, execute: Assembly::AND },
        42 => OpCode { mnemonic: "ROL", size: 1, mode: AddressingMode::NoneAddressing, execute: Assembly::ROL },
        43 => OpCode { mnemonic: "*ANC", size: 2, mode: AddressingMode::Immediate, execute: Assembly::UDF },
        44 => OpCode { mnemonic: "BIT", size: 3, mode: AddressingMode::Absolute, execute: Assembly::BIT },
        45 => OpCode { mnemonic: "AND", size: 3, mode: AddressingMode::Absolute, execute: Assembly::AND },
        46 => OpCode { mnemonic: "ROL", size: 3, mode: AddressingMode::Absolute, execute: Assembly::ROL },
        47 => OpCode { mnemonic: "*RLA", size: 3, mode: AddressingMode::Absolute, execute: Assembly::UDF },
        48 => OpCode { mnemonic: "BMI", size: 2, mode: AddressingMode::Immediate, execute: Assembly::BMI },
        49 => OpCode { mnemonic: "AND", size: 2, mode: AddressingMode::IndirectY, execute: Assembly::AND },
        50 => OpCode { mnemonic: "*NOP", size: 1, mode: AddressingMode::NoneAddressing, execute: Assembly::NOP },
        51 => OpCode { mnemonic: "*RLA", size: 2, mode: AddressingMode::IndirectY, execute: Assembly::UDF },
        52 => OpCode { mnemonic: "*NOP", size: 2, mode: AddressingMode::ZeroPageX, execute: Assembly::NOP },
        53 => OpCode { mnemonic: "AND", size: 2, mode: AddressingMode::ZeroPageX, execute: Assembly::AND },
        54 => OpCode { mnemonic: "ROL", size: 2, mode: AddressingMode::ZeroPageX, execute: Assembly::ROL },
        55 => OpCode { mnemonic: "*RLA", size: 2, mode: AddressingMode::ZeroPageX, execute: Assembly::UDF },
        56 => OpCode { mnemonic: "SEC", size: 1, mode: AddressingMode::NoneAddressing, execute: Assembly::SEC },
        57 => OpCode { mnemonic: "AND", size: 3, mode: AddressingMode::AbsoluteY, execute: Assembly::AND },
        58 => OpCode { mnemonic: "*NOP", size: 1, mode: AddressingMode::NoneAddressing, execute: Assembly::NOP },
        59 => OpCode { mnemonic: "*RLA", size: 3, mode: AddressingMode::AbsoluteY, execute: Assembly::UDF },
        60 => OpCode { mnemonic: "*NOP", size: 3, mode: AddressingMode::AbsoluteX, execute: Assembly::NOP },
        61 => OpCode { mnemonic: "AND", size: 3, mode: AddressingMode::AbsoluteX, execute: Assembly::AND },
        62 => OpCode { mnemonic: "ROL", size: 3, mode: AddressingMode::AbsoluteX, execute: Assembly::ROL },
        63 => OpCode { mnemonic: "*RLA", size: 3, mode: AddressingMode::AbsoluteX, execute: Assembly::UDF },
        64 => OpCode { mnemonic: "RTI", size: 1, mode: AddressingMode::NoneAddressing, execute: Assembly::RTI },
        65 => OpCode { mnemonic: "EOR", size: 2, mode: AddressingMode::IndirectX, execute: Assembly::EOR },
        66 => OpCode { mnemonic: "*NOP", size: 1, mode: AddressingMode::NoneAddressing, execute: Assembly::NOP },
        67 => OpCode { mnemonic: "*SRE", size: 2, mode: AddressingMode::IndirectX, execute: Assembly::UDF },
        68 => OpCode { mnemonic: "*NOP", size: 2, mode: AddressingMode::ZeroPage, execute: Assembly::NOP },
        69 => OpCode { mnemonic: "EOR", size: 2, mode: AddressingMode::ZeroPage, execute: Assembly::EOR },
        70 => OpCode { mnemonic: "LSR", size: 2, mode: AddressingMode::ZeroPage, execute: Assembly::LSR },
        71 => OpCode { mnemonic: "*SRE", size: 2, mode: AddressingMode::ZeroPage, execute: Assembly::UDF },
        72 => OpCode { mnemonic: "PHA", size: 1, mode: AddressingMode::NoneAddressing, execute: Assembly::PHA },
        73 => OpCode { mnemonic: "EOR", size: 2, mode: AddressingMode::Immediate, execute: Assembly::EOR },
        74 => OpCode { mnemonic: "LSR", size: 1, mode: AddressingMode::NoneAddressing, execute: Assembly::LSR },
        75 => OpCode { mnemonic: "*ALR", size: 2, mode: AddressingMode::Immediate, execute: Assembly::UDF },
        76 => OpCode { mnemonic: "JMP", size: 3, mode: AddressingMode::Immediate, execute: Assembly::JMP },
        77 => OpCode { mnemonic: "EOR", size: 3, mode: AddressingMode::Absolute, execute: Assembly::EOR },
        78 => OpCode { mnemonic: "LSR", size: 3, mode: AddressingMode::Absolute, execute: Assembly::LSR },
        79 => OpCode { mnemonic: "*SRE", size: 3, mode: AddressingMode::Absolute, execute: Assembly::UDF },
        80 => OpCode { mnemonic: "BVC", size: 2, mode: AddressingMode::Immediate, execute: Assembly::BVC },
        81 => OpCode { mnemonic: "EOR", size: 2, mode: AddressingMode::IndirectY, execute: Assembly::EOR },
        82 => OpCode { mnemonic: "*NOP", size: 1, mode: AddressingMode::NoneAddressing, execute: Assembly::NOP },
        83 => OpCode { mnemonic: "*SRE", size: 2, mode: AddressingMode::IndirectY, execute: Assembly::UDF },
        84 => OpCode { mnemonic: "*NOP", size: 2, mode: AddressingMode::ZeroPageX, execute: Assembly::NOP },
        85 => OpCode { mnemonic: "EOR", size: 2, mode: AddressingMode::ZeroPageX, execute: Assembly::EOR },
        86 => OpCode { mnemonic: "LSR", size: 2, mode: AddressingMode::ZeroPageX, execute: Assembly::LSR },
        87 => OpCode { mnemonic: "*SRE", size: 2, mode: AddressingMode::ZeroPageX, execute: Assembly::UDF },
        88 => OpCode { mnemonic: "CLI", size: 1, mode: AddressingMode::NoneAddressing, execute: Assembly::CLI },
        89 => OpCode { mnemonic: "EOR", size: 3, mode: AddressingMode::AbsoluteY, execute: Assembly::EOR },
        90 => OpCode { mnemonic: "*NOP", size: 1, mode: AddressingMode::NoneAddressing, execute: Assembly::NOP },
        91 => OpCode { mnemonic: "*SRE", size: 3, mode: AddressingMode::AbsoluteY, execute: Assembly::UDF },
        92 => OpCode { mnemonic: "*NOP", size: 3, mode: AddressingMode::AbsoluteX, execute: Assembly::NOP },
        93 => OpCode { mnemonic: "EOR", size: 3, mode: AddressingMode::AbsoluteX, execute: Assembly::EOR },
        94 => OpCode { mnemonic: "LSR", size: 3, mode: AddressingMode::AbsoluteX, execute: Assembly::LSR },
        95 => OpCode { mnemonic: "*SRE", size: 3, mode: AddressingMode::AbsoluteX, execute: Assembly::UDF },
        96 => OpCode { mnemonic: "RTS", size: 1, mode: AddressingMode::NoneAddressing, execute: Assembly::RTS },
        97 => OpCode { mnemonic: "ADC", size: 2, mode: AddressingMode::IndirectX, execute: Assembly::ADC },
        98 => OpCode { mnemonic: "*NOP", size: 1, mode: AddressingMode::NoneAddressing, execute: Assembly::NOP },
        99 => OpCode { mnemonic: "*RRA", size: 2, mode: AddressingMode::IndirectX, execute: Assembly::UDF },
        100 => OpCode { mnemonic: "*NOP", size: 2, mode: AddressingMode::ZeroPage, execute: Assembly::NOP },
        101 => OpCode { mnemonic: "ADC", size: 2, mode: AddressingMode::ZeroPage, execute: Assembly::ADC },
        102 => OpCode { mnemonic: "ROR", size: 2, mode: AddressingMode::ZeroPage, execute: Assembly::ROR },
        103 => OpCode { mnemonic: "*RRA", size: 2, mode: AddressingMode::ZeroPage, execute: Assembly::UDF },
        104 => OpCode { mnemonic: "PLA", size: 1, mode: AddressingMode::NoneAddressing, execute: Assembly::PLA },
        105 => OpCode { mnemonic: "ADC", size: 2, mode: AddressingMode::Immediate, execute: Assembly::ADC },
        106 => OpCode { mnemonic: "ROR", size: 1, mode: AddressingMode::NoneAddressing, execute: Assembly::ROR },
        107 => OpCode { mnemonic: "*ARR", size: 2, mode: AddressingMode::Immediate, execute: Assembly::UDF },
        108 => OpCode { mnemonic: "JMP", size: 3, mode: AddressingMode::Absolute, execute: Assembly::JMP },
        109 => OpCode { mnemonic: "ADC", size: 3, mode: AddressingMode::Absolute, execute: Assembly::ADC },
        110 => OpCode { mnemonic: "ROR", size: 3, mode: AddressingMode::Absolute, execute: Assembly::ROR },
        111 => OpCode { mnemonic: "*RRA", size: 3, mode: AddressingMode::Absolute, execute: Assembly::UDF },
        112 => OpCode { mnemonic: "BVS", size: 2, mode: AddressingMode::Immediate, execute: Assembly::BVS },
        113 => OpCode { mnemonic: "ADC", size: 2, mode: AddressingMode::IndirectY, execute: Assembly::ADC },
        114 => OpCode { mnemonic: "*NOP", size: 1, mode: AddressingMode::NoneAddressing, execute: Assembly::NOP },
        115 => OpCode { mnemonic: "*RRA", size: 2, mode: AddressingMode::IndirectY, execute: Assembly::UDF },
        116 => OpCode { mnemonic: "*NOP", size: 2, mode: AddressingMode::ZeroPageX, execute: Assembly::NOP },
        117 => OpCode { mnemonic: "ADC", size: 2, mode: AddressingMode::ZeroPageX, execute: Assembly::ADC },
        118 => OpCode { mnemonic: "ROR", size: 2, mode: AddressingMode::ZeroPageX, execute: Assembly::ROR },
        119 => OpCode { mnemonic: "*RRA", size: 2, mode: AddressingMode::ZeroPageX, execute: Assembly::UDF },
        120 => OpCode { mnemonic: "SEI", size: 1, mode: AddressingMode::NoneAddressing, execute: Assembly::SEI },
        121 => OpCode { mnemonic: "ADC", size: 3, mode: AddressingMode::AbsoluteY, execute: Assembly::ADC },
        122 => OpCode { mnemonic: "*NOP", size: 1, mode: AddressingMode::NoneAddressing, execute: Assembly::NOP },
        123 => OpCode { mnemonic: "*RRA", size: 3, mode: AddressingMode::AbsoluteY, execute: Assembly::UDF },
        124 => OpCode { mnemonic: "*NOP", size: 3, mode: AddressingMode::AbsoluteX, execute: Assembly::NOP },
        125 => OpCode { mnemonic: "ADC", size: 3, mode: AddressingMode::AbsoluteX, execute: Assembly::ADC },
        126 => OpCode { mnemonic: "ROR", size: 3, mode: AddressingMode::AbsoluteX, execute: Assembly::ROR },
        127 => OpCode { mnemonic: "*RRA", size: 3, mode: AddressingMode::AbsoluteX, execute: Assembly::UDF },
        128 => OpCode { mnemonic: "*NOP", size: 2, mode: AddressingMode::Immediate, execute: Assembly::NOP },
        129 => OpCode { mnemonic: "STA", size: 2, mode: AddressingMode::IndirectX, execute: Assembly::STA },
        130 => OpCode { mnemonic: "*NOP", size: 2, mode: AddressingMode::Immediate, execute: Assembly::NOP },
        131 => OpCode { mnemonic: "*SAX", size: 2, mode: AddressingMode::IndirectX, execute: Assembly::UDF },
        132 => OpCode { mnemonic: "STY", size: 2, mode: AddressingMode::ZeroPage, execute: Assembly::STY },
        133 => OpCode { mnemonic: "STA", size: 2, mode: AddressingMode::ZeroPage, execute: Assembly::STA },
        134 => OpCode { mnemonic: "STX", size: 2, mode: AddressingMode::ZeroPage, execute: Assembly::STX },
        135 => OpCode { mnemonic: "*SAX", size: 2, mode: AddressingMode::ZeroPage, execute: Assembly::UDF },
        136 => OpCode { mnemonic: "DEY", size: 1, mode: AddressingMode::NoneAddressing, execute: Assembly::DEY },
        137 => OpCode { mnemonic: "*NOP", size: 2, mode: AddressingMode::Immediate, execute: Assembly::NOP },
        138 => OpCode { mnemonic: "TXA", size: 1, mode: AddressingMode::NoneAddressing, execute: Assembly::TXA },
        139 => OpCode { mnemonic: "*XAA", size: 2, mode: AddressingMode::Immediate, execute: Assembly::UDF },
        140 => OpCode { mnemonic: "STY", size: 3, mode: AddressingMode::Absolute, execute: Assembly::STY },
        141 => OpCode { mnemonic: "STA", size: 3, mode: AddressingMode::Absolute, execute: Assembly::STA },
        142 => OpCode { mnemonic: "STX", size: 3, mode: AddressingMode::Absolute, execute: Assembly::STX },
        143 => OpCode { mnemonic: "*SAX", size: 3, mode: AddressingMode::Absolute, execute: Assembly::UDF },
        144 => OpCode { mnemonic: "BCC", size: 2, mode: AddressingMode::Immediate, execute: Assembly::BCC },
        145 => OpCode { mnemonic: "STA", size: 2, mode: AddressingMode::IndirectY, execute: Assembly::STA },
        146 => OpCode { mnemonic: "*NOP", size: 1, mode: AddressingMode::NoneAddressing, execute: Assembly::NOP },
        147 => OpCode { mnemonic: "*AHX", size: 2, mode: AddressingMode::IndirectY, execute: Assembly::UDF },
        148 => OpCode { mnemonic: "STY", size: 2, mode: AddressingMode::ZeroPageX, execute: Assembly::STY },
        149 => OpCode { mnemonic: "STA", size: 2, mode: AddressingMode::ZeroPageX, execute: Assembly::STA },
        150 => OpCode { mnemonic: "STX", size: 2, mode: AddressingMode::ZeroPageY, execute: Assembly::STX },
        151 => OpCode { mnemonic: "*SAX", size: 2, mode: AddressingMode::ZeroPageY, execute: Assembly::UDF },
        152 => OpCode { mnemonic: "TYA", size: 1, mode: AddressingMode::NoneAddressing, execute: Assembly::TYA },
        153 => OpCode { mnemonic: "STA", size: 3, mode: AddressingMode::AbsoluteY, execute: Assembly::STA },
        154 => OpCode { mnemonic: "TXS", size: 1, mode: AddressingMode::NoneAddressing, execute: Assembly::TXS },
        155 => OpCode { mnemonic: "*TAS", size: 3, mode: AddressingMode::AbsoluteY, execute: Assembly::UDF },
        156 => OpCode { mnemonic: "*SHY", size: 3, mode: AddressingMode::AbsoluteX, execute: Assembly::UDF },
        157 => OpCode { mnemonic: "STA", size: 3, mode: AddressingMode::AbsoluteX, execute: Assembly::STA },
        158 => OpCode { mnemonic: "*SHX", size: 3, mode: AddressingMode::AbsoluteY, execute: Assembly::UDF },
        159 => OpCode { mnemonic: "*AHX", size: 3, mode: AddressingMode::AbsoluteY, execute: Assembly::UDF },
        160 => OpCode { mnemonic: "LDY", size: 2, mode: AddressingMode::Immediate, execute: Assembly::LDY },
        161 => OpCode { mnemonic: "LDA", size: 2, mode: AddressingMode::IndirectX, execute: Assembly::LDA },
        162 => OpCode { mnemonic: "LDX", size: 2, mode: AddressingMode::Immediate, execute: Assembly::LDX },
        163 => OpCode { mnemonic: "*LAX", size: 2, mode: AddressingMode::IndirectX, execute: Assembly::UDF },
        164 => OpCode { mnemonic: "LDY", size: 2, mode: AddressingMode::ZeroPage, execute: Assembly::LDY },
        165 => OpCode { mnemonic: "LDA", size: 2, mode: AddressingMode::ZeroPage, execute: Assembly::LDA },
        166 => OpCode { mnemonic: "LDX", size: 2, mode: AddressingMode::ZeroPage, execute: Assembly::LDX },
        167 => OpCode { mnemonic: "*LAX", size: 2, mode: AddressingMode::ZeroPage, execute: Assembly::UDF },
        168 => OpCode { mnemonic: "TAY", size: 1, mode: AddressingMode::NoneAddressing, execute: Assembly::TAY },
        169 => OpCode { mnemonic: "LDA", size: 2, mode: AddressingMode::Immediate, execute: Assembly::LDA },
        170 => OpCode { mnemonic: "TAX", size: 1, mode: AddressingMode::NoneAddressing, execute: Assembly::TAX },
        171 => OpCode { mnemonic: "*LXA", size: 2, mode: AddressingMode::Immediate, execute: Assembly::UDF },
        172 => OpCode { mnemonic: "LDY", size: 3, mode: AddressingMode::Absolute, execute: Assembly::LDY },
        173 => OpCode { mnemonic: "LDA", size: 3, mode: AddressingMode::Absolute, execute: Assembly::LDA },
        174 => OpCode { mnemonic: "LDX", size: 3, mode: AddressingMode::Absolute, execute: Assembly::LDX },
        175 => OpCode { mnemonic: "*LAX", size: 3, mode: AddressingMode::Absolute, execute: Assembly::UDF },
        176 => OpCode { mnemonic: "BCS", size: 2, mode: AddressingMode::Immediate, execute: Assembly::BCS },
        177 => OpCode { mnemonic: "LDA", size: 2, mode: AddressingMode::IndirectY, execute: Assembly::LDA },
        178 => OpCode { mnemonic: "*NOP", size: 1, mode: AddressingMode::NoneAddressing, execute: Assembly::NOP },
        179 => OpCode { mnemonic: "*LAX", size: 2, mode: AddressingMode::IndirectY, execute: Assembly::UDF },
        180 => OpCode { mnemonic: "LDY", size: 2, mode: AddressingMode::ZeroPageX, execute: Assembly::LDY },
        181 => OpCode { mnemonic: "LDA", size: 2, mode: AddressingMode::ZeroPageX, execute: Assembly::LDA },
        182 => OpCode { mnemonic: "LDX", size: 2, mode: AddressingMode::ZeroPageY, execute: Assembly::LDX },
        183 => OpCode { mnemonic: "*LAX", size: 2, mode: AddressingMode::ZeroPageY, execute: Assembly::UDF },
        184 => OpCode { mnemonic: "CLV", size: 1, mode: AddressingMode::NoneAddressing, execute: Assembly::CLV },
        185 => OpCode { mnemonic: "LDA", size: 3, mode: AddressingMode::AbsoluteY, execute: Assembly::LDA },
        186 => OpCode { mnemonic: "TSX", size: 1, mode: AddressingMode::NoneAddressing, execute: Assembly::TSX },
        187 => OpCode { mnemonic: "*LAS", size: 3, mode: AddressingMode::AbsoluteY, execute: Assembly::UDF },
        188 => OpCode { mnemonic: "LDY", size: 3, mode: AddressingMode::AbsoluteX, execute: Assembly::LDY },
        189 => OpCode { mnemonic: "LDA", size: 3, mode: AddressingMode::AbsoluteX, execute: Assembly::LDA },
        190 => OpCode { mnemonic: "LDX", size: 3, mode: AddressingMode::AbsoluteY, execute: Assembly::LDX },
        191 => OpCode { mnemonic: "*LAX", size: 3, mode: AddressingMode::AbsoluteY, execute: Assembly::UDF },
        192 => OpCode { mnemonic: "CPY", size: 2, mode: AddressingMode::Immediate, execute: Assembly::CPY },
        193 => OpCode { mnemonic: "CMP", size: 2, mode: AddressingMode::IndirectX, execute: Assembly::CMP },
        194 => OpCode { mnemonic: "*NOP", size: 2, mode: AddressingMode::Immediate, execute: Assembly::NOP },
        195 => OpCode { mnemonic: "*DCP", size: 2, mode: AddressingMode::IndirectX, execute: Assembly::UDF },
        196 => OpCode { mnemonic: "CPY", size: 2, mode: AddressingMode::ZeroPage, execute: Assembly::CPY },
        197 => OpCode { mnemonic: "CMP", size: 2, mode: AddressingMode::ZeroPage, execute: Assembly::CMP },
        198 => OpCode { mnemonic: "DEC", size: 2, mode: AddressingMode::ZeroPage, execute: Assembly::DEC },
        199 => OpCode { mnemonic: "*DCP", size: 2, mode: AddressingMode::ZeroPage, execute: Assembly::UDF },
        200 => OpCode { mnemonic: "INY", size: 1, mode: AddressingMode::NoneAddressing, execute: Assembly::INY },
        201 => OpCode { mnemonic: "CMP", size: 2, mode: AddressingMode::Immediate, execute: Assembly::CMP },
        202 => OpCode { mnemonic: "DEX", size: 1, mode: AddressingMode::NoneAddressing, execute: Assembly::DEX },
        203 => OpCode { mnemonic: "*AXS", size: 2, mode: AddressingMode::Immediate, execute: Assembly::UDF },
        204 => OpCode { mnemonic: "CPY", size: 3, mode: AddressingMode::Absolute, execute: Assembly::CPY },
        205 => OpCode { mnemonic: "CMP", size: 3, mode: AddressingMode::Absolute, execute: Assembly::CMP },
        206 => OpCode { mnemonic: "DEC", size: 3, mode: AddressingMode::Absolute, execute: Assembly::DEC },
        207 => OpCode { mnemonic: "*DCP", size: 3, mode: AddressingMode::Absolute, execute: Assembly::UDF },
        208 => OpCode { mnemonic: "BNE", size: 2, mode: AddressingMode::Immediate, execute: Assembly::BNE },
        209 => OpCode { mnemonic: "CMP", size: 2, mode: AddressingMode::IndirectY, execute: Assembly::CMP },
        210 => OpCode { mnemonic: "*NOP", size: 1, mode: AddressingMode::NoneAddressing, execute: Assembly::NOP },
        211 => OpCode { mnemonic: "*DCP", size: 2, mode: AddressingMode::IndirectY, execute: Assembly::UDF },
        212 => OpCode { mnemonic: "*NOP", size: 2, mode: AddressingMode::ZeroPageX, execute: Assembly::NOP },
        213 => OpCode { mnemonic: "CMP", size: 2, mode: AddressingMode::ZeroPageX, execute: Assembly::CMP },
        214 => OpCode { mnemonic: "DEC", size: 2, mode: AddressingMode::ZeroPageX, execute: Assembly::DEC },
        215 => OpCode { mnemonic: "*DCP", size: 2, mode: AddressingMode::ZeroPageX, execute: Assembly::UDF },
        216 => OpCode { mnemonic: "CLD", size: 1, mode: AddressingMode::NoneAddressing, execute: Assembly::CLD },
        217 => OpCode { mnemonic: "CMP", size: 3, mode: AddressingMode::AbsoluteY, execute: Assembly::CMP },
        218 => OpCode { mnemonic: "*NOP", size: 1, mode: AddressingMode::NoneAddressing, execute: Assembly::NOP },
        219 => OpCode { mnemonic: "*DCP", size: 3, mode: AddressingMode::AbsoluteY, execute: Assembly::UDF },
        220 => OpCode { mnemonic: "*NOP", size: 3, mode: AddressingMode::AbsoluteX, execute: Assembly::NOP },
        221 => OpCode { mnemonic: "CMP", size: 3, mode: AddressingMode::AbsoluteX, execute: Assembly::CMP },
        222 => OpCode { mnemonic: "DEC", size: 3, mode: AddressingMode::AbsoluteX, execute: Assembly::DEC },
        223 => OpCode { mnemonic: "*DCP", size: 3, mode: AddressingMode::AbsoluteX, execute: Assembly::UDF },
        224 => OpCode { mnemonic: "CPX", size: 2, mode: AddressingMode::Immediate, execute: Assembly::CPX },
        225 => OpCode { mnemonic: "SBC", size: 2, mode: AddressingMode::IndirectX, execute: Assembly::SBC },
        226 => OpCode { mnemonic: "*NOP", size: 2, mode: AddressingMode::Immediate, execute: Assembly::NOP },
        227 => OpCode { mnemonic: "*ISB", size: 2, mode: AddressingMode::IndirectX, execute: Assembly::UDF },
        228 => OpCode { mnemonic: "CPX", size: 2, mode: AddressingMode::ZeroPage, execute: Assembly::CPX },
        229 => OpCode { mnemonic: "SBC", size: 2, mode: AddressingMode::ZeroPage, execute: Assembly::SBC },
        230 => OpCode { mnemonic: "INC", size: 2, mode: AddressingMode::ZeroPage, execute: Assembly::INC },
        231 => OpCode { mnemonic: "*ISB", size: 2, mode: AddressingMode::ZeroPage, execute: Assembly::UDF },
        232 => OpCode { mnemonic: "INX", size: 1, mode: AddressingMode::NoneAddressing, execute: Assembly::INX },
        233 => OpCode { mnemonic: "SBC", size: 2, mode: AddressingMode::Immediate, execute: Assembly::SBC },
        234 => OpCode { mnemonic: "NOP", size: 1, mode: AddressingMode::NoneAddressing, execute: Assembly::NOP },
        235 => OpCode { mnemonic: "*SBC", size: 2, mode: AddressingMode::Immediate, execute: Assembly::UDF },
        236 => OpCode { mnemonic: "CPX", size: 3, mode: AddressingMode::Absolute, execute: Assembly::CPX },
        237 => OpCode { mnemonic: "SBC", size: 3, mode: AddressingMode::Absolute, execute: Assembly::SBC },
        238 => OpCode { mnemonic: "INC", size: 3, mode: AddressingMode::Absolute, execute: Assembly::INC },
        239 => OpCode { mnemonic: "*ISB", size: 3, mode: AddressingMode::Absolute, execute: Assembly::UDF },
        240 => OpCode { mnemonic: "BEQ", size: 2, mode: AddressingMode::Immediate, execute: Assembly::BEQ },
        241 => OpCode { mnemonic: "SBC", size: 2, mode: AddressingMode::IndirectY, execute: Assembly::SBC },
        242 => OpCode { mnemonic: "*NOP", size: 1, mode: AddressingMode::NoneAddressing, execute: Assembly::NOP },
        243 => OpCode { mnemonic: "*ISB", size: 2, mode: AddressingMode::IndirectY, execute: Assembly::UDF },
        244 => OpCode { mnemonic: "*NOP", size: 2, mode: AddressingMode::ZeroPageX, execute: Assembly::NOP },
        245 => OpCode { mnemonic: "SBC", size: 2, mode: AddressingMode::ZeroPageX, execute: Assembly::SBC },
        246 => OpCode { mnemonic: "INC", size: 2, mode: AddressingMode::ZeroPageX, execute: Assembly::INC },
        247 => OpCode { mnemonic: "*ISB", size: 2, mode: AddressingMode::ZeroPageX, execute: Assembly::UDF },
        248 => OpCode { mnemonic: "SED", size: 1, mode: AddressingMode::NoneAddressing, execute: Assembly::SED },
        249 => OpCode { mnemonic: "SBC", size: 3, mode: AddressingMode::AbsoluteY, execute: Assembly::SBC },
        250 => OpCode { mnemonic: "*NOP", size: 1, mode: AddressingMode::NoneAddressing, execute: Assembly::NOP },
        251 => OpCode { mnemonic: "*ISB", size: 3, mode: AddressingMode::AbsoluteY, execute: Assembly::UDF },
        252 => OpCode { mnemonic: "*NOP", size: 3, mode: AddressingMode::AbsoluteX, execute: Assembly::NOP },
        253 => OpCode { mnemonic: "SBC", size: 3, mode: AddressingMode::AbsoluteX, execute: Assembly::SBC },
        254 => OpCode { mnemonic: "INC", size: 3, mode: AddressingMode::AbsoluteX, execute: Assembly::INC },
        _ => OpCode { mnemonic: "*ISB", size: 3, mode: AddressingMode::AbsoluteX, execute: Assembly::UDF },
    }
}

/// Looks a byte up in the opcode table.
pub fn lookup(byte: u8) -> (r: OpCode)
    ensures
        r == opcode_entry(byte),
{
    match byte {
        0 => OpCode { mnemonic: "BRK", size: 1, mode: AddressingMode::NoneAddressing, execute: Assembly::BRK },
        1 => OpCode { mnemonic: "ORA", size: 2, mode: AddressingMode::IndirectX, execute: Assembly::ORA },
        2 => OpCode { mnemonic: "*NOP", size: 1, mode: AddressingMode::NoneAddressing, execute: Assembly::NOP },
        3 => OpCode { mnemonic: "*SLO", size: 2, mode: AddressingMode::IndirectX, execute: Assembly::UDF },
        4 => OpCode { mnemonic: "*NOP", size: 2, mode: AddressingMode::ZeroPage, execute: Assembly::NOP },
        5 => OpCode { mnemonic: "ORA", size: 2, mode: AddressingMode::ZeroPage, execute: Assembly::ORA },
        6 => OpCode { mnemonic: "ASL", size: 2, mode: AddressingMode::ZeroPage, execute: Assembly::ASL },
        7 => OpCode { mnemonic: "*SLO", size: 2, mode: AddressingMode::ZeroPage, execute: Assembly::UDF },
        8 => OpCode { mnemonic: "PHP", size: 1, mode: AddressingMode::NoneAddressing, execute: Assembly::PHP },
        9 => OpCode { mnemonic: "ORA", size: 2, mode: AddressingMode::Immediate, execute: Assembly::ORA },
        10 => OpCode { mnemonic: "ASL", size: 1, mode: AddressingMode::NoneAddressing, execute: Assembly::ASL },
        11 => OpCode { mnemonic: "*ANC", size: 2, mode: AddressingMode::Immediate, execute: Assembly::UDF },
        12 => OpCode { mnemonic: "*NOP", size: 3, mode: AddressingMode::Absolute, execute: Assembly::NOP },
        13 => OpCode { mnemonic: "ORA", size: 3, mode: AddressingMode::Absolute, execute: Assembly::ORA },
        14 => OpCode { mnemonic: "ASL", size: 3, mode: AddressingMode::Absolute, execute: Assembly::ASL },
        15 => OpCode { mnemonic: "*SLO", size: 3, mode: AddressingMode::Absolute, execute: Assembly::UDF },
        16 => OpCode { mnemonic: "BPL", size: 2, mode: AddressingMode::Immediate, execute: Assembly::BPL },
        17 => OpCode { mnemonic: "ORA", size: 2, mode: AddressingMode::IndirectY, execute: Assembly::ORA },
        18 => OpCode { mnemonic: "*NOP", size: 1, mode: AddressingMode::NoneAddressing, execute: Assembly::NOP },
        19 => OpCode { mnemonic: "*SLO", size: 2, mode: AddressingMode::IndirectY, execute: Assembly::UDF },
        20 => OpCode { mnemonic: "*NOP", size: 2, mode: AddressingMode::ZeroPageX, execute: Assembly::NOP },
        21 => OpCode { mnemonic: "ORA", size: 2, mode: AddressingMode::ZeroPageX, execute: Assembly::ORA },
        22 => OpCode { mnemonic: "ASL", size: 2, mode: AddressingMode::ZeroPageX, execute: Assembly::ASL },
        23 => OpCode { mnemonic: "*SLO", size: 2, mode: AddressingMode::ZeroPageX, execute: Assembly::UDF },
        24 => OpCode { mnemonic: "CLC", size: 1, mode: AddressingMode::NoneAddressing, execute: Assembly::CLC },
        25 => OpCode { mnemonic: "ORA", size: 3, mode: AddressingMode::AbsoluteY, execute: Assembly::ORA },
        26 => OpCode { mnemonic: "*NOP", size: 1, mode: AddressingMode::NoneAddressing, execute: Assembly::NOP },
        27 => OpCode { mnemonic: "*SLO", size: 3, mode: AddressingMode::AbsoluteY, execute: Assembly::UDF },
        28 => OpCode { mnemonic: "*NOP", size: 3, mode: AddressingMode::AbsoluteX, execute: Assembly::NOP },
        29 => OpCode { mnemonic: "ORA", size: 3, mode: AddressingMode::AbsoluteX, execute: Assembly::ORA },
        30 => OpCode { mnemonic: "ASL", size: 3, mode: AddressingMode::AbsoluteX, execute: Assembly::ASL },
        31 => OpCode { mnemonic: "*SLO", size: 3, mode: AddressingMode::AbsoluteX, execute: Assembly::UDF },
        32 => OpCode { mnemonic: "JSR", size: 3, mode: AddressingMode::Immediate, execute: Assembly::JSR },
        33 => OpCode { mnemonic: "AND", size: 2, mode: AddressingMode::IndirectX, execute: Assembly::AND },
        34 => OpCode { mnemonic: "*NOP", size: 1, mode: AddressingMode::NoneAddressing, execute: Assembly::NOP },
        35 => OpCode { mnemonic: "*RLA", size: 2, mode: AddressingMode::IndirectX, execute: Assembly::UDF },
        36 => OpCode { mnemonic: "BIT", size: 2, mode: AddressingMode::ZeroPage, execute: Assembly::BIT },
        37 => OpCode { mnemonic: "AND", size: 2, mode: AddressingMode::ZeroPage, execute: Assembly::AND },
        38 => OpCode { mnemonic: "ROL", size: 2, mode: AddressingMode::ZeroPage, execute: Assembly::ROL },
        39 => OpCode { mnemonic: "*RLA", size: 2, mode: AddressingMode::ZeroPage, execute: Assembly::UDF },
        40 => OpCode { mnemonic: "PLP", size: 1, mode: AddressingMode::NoneAddressing, execute: Assembly::PLP },
        41 => OpCode { mnemonic: "AND", size: 2, mode: AddressingMode::Immediate, execute: Assembly::AND },
        42 => OpCode { mnemonic: "ROL", size: 1, mode: AddressingMode::NoneAddressing, execute: Assembly::ROL },
        43 => OpCode { mnemonic: "*ANC", size: 2, mode: AddressingMode::Immediate, execute: Assembly::UDF },
        44 => OpCode { mnemonic: "BIT", size: 3, mode: AddressingMode::Absolute, execute: Assembly::BIT },
        45 => OpCode { mnemonic: "AND", size: 3, mode: AddressingMode::Absolute, execute: Assembly::AND },
        46 => OpCode { mnemonic: "ROL", size: 3, mode: AddressingMode::Absolute, execute: Assembly::ROL },
        47 => OpCode { mnemonic: "*RLA", size: 3, mode: AddressingMode::Absolute, execute: Assembly::UDF },
        48 => OpCode { mnemonic: "BMI", size: 2, mode: AddressingMode::Immediate, execute: Assembly::BMI },
        49 => OpCode { mnemonic: "AND", size: 2, mode: AddressingMode::IndirectY, execute: Assembly::AND },
        50 => OpCode { mnemonic: "*NOP", size: 1, mode: AddressingMode::NoneAddressing, execute: Assembly::NOP },
        51 => OpCode { mnemonic: "*RLA", size: 2, mode: AddressingMode::IndirectY, execute: Assembly::UDF },
        52 => OpCode { mnemonic: "*NOP", size: 2, mode: AddressingMode::ZeroPageX, execute: Assembly::NOP },
        53 => OpCode { mnemonic: "AND", size: 2, mode: AddressingMode::ZeroPageX, execute: Assembly::AND },
        54 => OpCode { mnemonic: "ROL", size: 2, mode: AddressingMode::ZeroPageX, execute: Assembly::ROL },
        55 => OpCode { mnemonic: "*RLA", size: 2, mode: AddressingMode::ZeroPageX, execute: Assembly::UDF },
        56 => OpCode { mnemonic: "SEC", size: 1, mode: AddressingMode::NoneAddressing, execute: Assembly::SEC },
        57 => OpCode { mnemonic: "AND", size: 3, mode: AddressingMode::AbsoluteY, execute: Assembly::AND },
        58 => OpCode { mnemonic: "*NOP", size: 1, mode: AddressingMode::NoneAddressing, execute: Assembly::NOP },
        59 => OpCode { mnemonic: "*RLA", size: 3, mode: AddressingMode::AbsoluteY, execute: Assembly::UDF },
        60 => OpCode { mnemonic: "*NOP", size: 3, mode: AddressingMode::AbsoluteX, execute: Assembly::NOP },
        61 => OpCode { mnemonic: "AND", size: 3, mode: AddressingMode::AbsoluteX, execute: Assembly::AND },
        62 => OpCode { mnemonic: "ROL", size: 3, mode: AddressingMode::AbsoluteX, execute: Assembly::ROL },
        63 => OpCode { mnemonic: "*RLA", size: 3, mode: AddressingMode::AbsoluteX, execute: Assembly::UDF },
        64 => OpCode { mnemonic: "RTI", size: 1, mode: AddressingMode::NoneAddressing, execute: Assembly::RTI },
        65 => OpCode { mnemonic: "EOR", size: 2, mode: AddressingMode::IndirectX, execute: Assembly::EOR },
        66 => OpCode { mnemonic: "*NOP", size: 1, mode: AddressingMode::NoneAddressing, execute: Assembly::NOP },
        67 => OpCode { mnemonic: "*SRE", size: 2, mode: AddressingMode::IndirectX, execute: Assembly::UDF },
        68 => OpCode { mnemonic: "*NOP", size: 2, mode: AddressingMode::ZeroPage, execute: Assembly::NOP },
        69 => OpCode { mnemonic: "EOR", size: 2, mode: AddressingMode::ZeroPage, execute: Assembly::EOR },
        70 => OpCode { mnemonic: "LSR", size: 2, mode: AddressingMode::ZeroPage, execute: Assembly::LSR },
        71 => OpCode { mnemonic: "*SRE", size: 2, mode: AddressingMode::ZeroPage, execute: Assembly::UDF },
        72 => OpCode { mnemonic: "PHA", size: 1, mode: AddressingMode::NoneAddressing, execute: Assembly::PHA },
        73 => OpCode { mnemonic: "EOR", size: 2, mode: AddressingMode::Immediate, execute: Assembly::EOR },
        74 => OpCode { mnemonic: "LSR", size: 1, mode: AddressingMode::NoneAddressing, execute: Assembly::LSR },
        75 => OpCode { mnemonic: "*ALR", size: 2, mode: AddressingMode::Immediate, execute: Assembly::UDF },
        76 => OpCode { mnemonic: "JMP", size: 3, mode: AddressingMode::Immediate, execute: Assembly::JMP },
        77 => OpCode { mnemonic: "EOR", size: 3, mode: AddressingMode::Absolute, execute: Assembly::EOR },
        78 => OpCode { mnemonic: "LSR", size: 3, mode: AddressingMode::Absolute, execute: Assembly::LSR },
        79 => OpCode { mnemonic: "*SRE", size: 3, mode: AddressingMode::Absolute, execute: Assembly::UDF },
        80 => OpCode { mnemonic: "BVC", size: 2, mode: AddressingMode::Immediate, execute: Assembly::BVC },
        81 => OpCode { mnemonic: "EOR", size: 2, mode: AddressingMode::IndirectY, execute: Assembly::EOR },
        82 => OpCode { mnemonic: "*NOP", size: 1, mode: AddressingMode::NoneAddressing, execute: Assembly::NOP },
        83 => OpCode { mnemonic: "*SRE", size: 2, mode: AddressingMode::IndirectY, execute: Assembly::UDF },
        84 => OpCode { mnemonic: "*NOP", size: 2, mode: AddressingMode::ZeroPageX, execute: Assembly::NOP },
        85 => OpCode { mnemonic: "EOR", size: 2, mode: AddressingMode::ZeroPageX, execute: Assembly::EOR },
        86 => OpCode { mnemonic: "LSR", size: 2, mode: AddressingMode::ZeroPageX, execute: Assembly::LSR },
        87 => OpCode { mnemonic: "*SRE", size: 2, mode: AddressingMode::ZeroPageX, execute: Assembly::UDF },
        88 => OpCode { mnemonic: "CLI", size: 1, mode: AddressingMode::NoneAddressing, execute: Assembly::CLI },
        89 => OpCode { mnemonic: "EOR", size: 3, mode: AddressingMode::AbsoluteY, execute: Assembly::EOR },
        90 => OpCode { mnemonic: "*NOP", size: 1, mode: AddressingMode::NoneAddressing, execute: Assembly::NOP },
        91 => OpCode { mnemonic: "*SRE", size: 3, mode: AddressingMode::AbsoluteY, execute: Assembly::UDF },
        92 => OpCode { mnemonic: "*NOP", size: 3, mode: AddressingMode::AbsoluteX, execute: Assembly::NOP },
        93 => OpCode { mnemonic: "EOR", size: 3, mode: AddressingMode::AbsoluteX, execute: Assembly::EOR },
        94 => OpCode { mnemonic: "LSR", size: 3, mode: AddressingMode::AbsoluteX, execute: Assembly::LSR },
        95 => OpCode { mnemonic: "*SRE", size: 3, mode: AddressingMode::AbsoluteX, execute: Assembly::UDF },
        96 => OpCode { mnemonic: "RTS", size: 1, mode: AddressingMode::NoneAddressing, execute: Assembly::RTS },
        97 => OpCode { mnemonic: "ADC", size: 2, mode: AddressingMode::IndirectX, execute: Assembly::ADC },
        98 => OpCode { mnemonic: "*NOP", size: 1, mode: AddressingMode::NoneAddressing, execute: Assembly::NOP },
        99 => OpCode { mnemonic: "*RRA", size: 2, mode: AddressingMode::IndirectX, execute: Assembly::UDF },
        100 => OpCode { mnemonic: "*NOP", size: 2, mode: AddressingMode::ZeroPage, execute: Assembly::NOP },
        101 => OpCode { mnemonic: "ADC", size: 2, mode: AddressingMode::ZeroPage, execute: Assembly::ADC },
        102 => OpCode { mnemonic: "ROR", size: 2, mode: AddressingMode::ZeroPage, execute: Assembly::ROR },
        103 => OpCode { mnemonic: "*RRA", size: 2, mode: AddressingMode::ZeroPage, execute: Assembly::UDF },
        104 => OpCode { mnemonic: "PLA", size: 1, mode: AddressingMode::NoneAddressing, execute: Assembly::PLA },
        105 => OpCode { mnemonic: "ADC", size: 2, mode: AddressingMode::Immediate, execute: Assembly::ADC },
        106 => OpCode { mnemonic: "ROR", size: 1, mode: AddressingMode::NoneAddressing, execute: Assembly::ROR },
        107 => OpCode { mnemonic: "*ARR", size: 2, mode: AddressingMode::Immediate, execute: Assembly::UDF },
        108 => OpCode { mnemonic: "JMP", size: 3, mode: AddressingMode::Absolute, execute: Assembly::JMP },
        109 => OpCode { mnemonic: "ADC", size: 3, mode: AddressingMode::Absolute, execute: Assembly::ADC },
        110 => OpCode { mnemonic: "ROR", size: 3, mode: AddressingMode::Absolute, execute: Assembly::ROR },
        111 => OpCode { mnemonic: "*RRA", size: 3, mode: AddressingMode::Absolute, execute: Assembly::UDF },
        112 => OpCode { mnemonic: "BVS", size: 2, mode: AddressingMode::Immediate, execute: Assembly::BVS },
        113 => OpCode { mnemonic: "ADC", size: 2, mode: AddressingMode::IndirectY, execute: Assembly::ADC },
        114 => OpCode { mnemonic: "*NOP", size: 1, mode: AddressingMode::NoneAddressing, execute: Assembly::NOP },
        115 => OpCode { mnemonic: "*RRA", size: 2, mode: AddressingMode::IndirectY, execute: Assembly::UDF },
        116 => OpCode { mnemonic: "*NOP", size: 2, mode: AddressingMode::ZeroPageX, execute: Assembly::NOP },
        117 => OpCode { mnemonic: "ADC", size: 2, mode: AddressingMode::ZeroPageX, execute: Assembly::ADC },
        118 => OpCode { mnemonic: "ROR", size: 2, mode: AddressingMode::ZeroPageX, execute: Assembly::ROR },
        119 => OpCode { mnemonic: "*RRA", size: 2, mode: AddressingMode::ZeroPageX, execute: Assembly::UDF },
        120 => OpCode { mnemonic: "SEI", size: 1, mode: AddressingMode::NoneAddressing, execute: Assembly::SEI },
        121 => OpCode { mnemonic: "ADC", size: 3, mode: AddressingMode::AbsoluteY, execute: Assembly::ADC },
        122 => OpCode { mnemonic: "*NOP", size: 1, mode: AddressingMode::NoneAddressing, execute: Assembly::NOP },
        123 => OpCode { mnemonic: "*RRA", size: 3, mode: AddressingMode::AbsoluteY, execute: Assembly::UDF },
        124 => OpCode { mnemonic: "*NOP", size: 3, mode: AddressingMode::AbsoluteX, execute: Assembly::NOP },
        125 => OpCode { mnemonic: "ADC", size: 3, mode: AddressingMode::AbsoluteX, execute: Assembly::ADC },
        126 => OpCode { mnemonic: "ROR", size: 3, mode: AddressingMode::AbsoluteX, execute: Assembly::ROR },
        127 => OpCode { mnemonic: "*RRA", size: 3, mode: AddressingMode::AbsoluteX, execute: Assembly::UDF },
        128 => OpCode { mnemonic: "*NOP", size: 2, mode: AddressingMode::Immediate, execute: Assembly::NOP },
        129 => OpCode { mnemonic: "STA", size: 2, mode: AddressingMode::IndirectX, execute: Assembly::STA },
        130 => OpCode { mnemonic: "*NOP", size: 2, mode: AddressingMode::Immediate, execute: Assembly::NOP },
        131 => OpCode { mnemonic: "*SAX", size: 2, mode: AddressingMode::IndirectX, execute: Assembly::UDF },
        132 => OpCode { mnemonic: "STY", size: 2, mode: AddressingMode::ZeroPage, execute: Assembly::STY },
        133 => OpCode { mnemonic: "STA", size: 2, mode: AddressingMode::ZeroPage, execute: Assembly::STA },
        134 => OpCode { mnemonic: "STX", size: 2, mode: AddressingMode::ZeroPage, execute: Assembly::STX },
        135 => OpCode { mnemonic: "*SAX", size: 2, mode: AddressingMode::ZeroPage, execute: Assembly::UDF },
        136 => OpCode { mnemonic: "DEY", size: 1, mode: AddressingMode::NoneAddressing, execute: Assembly::DEY },
        137 => OpCode { mnemonic: "*NOP", size: 2, mode: AddressingMode::Immediate, execute: Assembly::NOP },
        138 => OpCode { mnemonic: "TXA", size: 1, mode: AddressingMode::NoneAddressing, execute: Assembly::TXA },
        139 => OpCode { mnemonic: "*XAA", size: 2, mode: AddressingMode::Immediate, execute: Assembly::UDF },
        140 => OpCode { mnemonic: "STY", size: 3, mode: AddressingMode::Absolute, execute: Assembly::STY },
        141 => OpCode { mnemonic: "STA", size: 3, mode: AddressingMode::Absolute, execute: Assembly::STA },
        142 => OpCode { mnemonic: "STX", size: 3, mode: AddressingMode::Absolute, execute: Assembly::STX },
        143 => OpCode { mnemonic: "*SAX", size: 3, mode: AddressingMode::Absolute, execute: Assembly::UDF },
        144 => OpCode { mnemonic: "BCC", size: 2, mode: AddressingMode::Immediate, execute: Assembly::BCC },
        145 => OpCode { mnemonic: "STA", size: 2, mode: AddressingMode::IndirectY, execute: Assembly::STA },
        146 => OpCode { mnemonic: "*NOP", size: 1, mode: AddressingMode::NoneAddressing, execute: Assembly::NOP },
        147 => OpCode { mnemonic: "*AHX", size: 2, mode: AddressingMode::IndirectY, execute: Assembly::UDF },
        148 => OpCode { mnemonic: "STY", size: 2, mode: AddressingMode::ZeroPageX, execute: Assembly::STY },
        149 => OpCode { mnemonic: "STA", size: 2, mode: AddressingMode::ZeroPageX, execute: Assembly::STA },
        150 => OpCode { mnemonic: "STX", size: 2, mode: AddressingMode::ZeroPageY, execute: Assembly::STX },
        151 => OpCode { mnemonic: "*SAX", size: 2, mode: AddressingMode::ZeroPageY, execute: Assembly::UDF },
        152 => OpCode { mnemonic: "TYA", size: 1, mode: AddressingMode::NoneAddressing, execute: Assembly::TYA },
        153 => OpCode { mnemonic: "STA", size: 3, mode: AddressingMode::AbsoluteY, execute: Assembly::STA },
        154 => OpCode { mnemonic: "TXS", size: 1, mode: AddressingMode::NoneAddressing, execute: Assembly::TXS },
        155 => OpCode { mnemonic: "*TAS", size: 3, mode: AddressingMode::AbsoluteY, execute: Assembly::UDF },
        156 => OpCode { mnemonic: "*SHY", size: 3, mode: AddressingMode::AbsoluteX, execute: Assembly::UDF },
        157 => OpCode { mnemonic: "STA", size: 3, mode: AddressingMode::AbsoluteX, execute: Assembly::STA },
        158 => OpCode { mnemonic: "*SHX", size: 3, mode: AddressingMode::AbsoluteY, execute: Assembly::UDF },
        159 => OpCode { mnemonic: "*AHX", size: 3, mode: AddressingMode::AbsoluteY, execute: Assembly::UDF },
        160 => OpCode { mnemonic: "LDY", size: 2, mode: AddressingMode::Immediate, execute: Assembly::LDY },
        161 => OpCode { mnemonic: "LDA", size: 2, mode: AddressingMode::IndirectX, execute: Assembly::LDA },
        162 => OpCode { mnemonic: "LDX", size: 2, mode: AddressingMode::Immediate, execute: Assembly::LDX },
        163 => OpCode { mnemonic: "*LAX", size: 2, mode: AddressingMode::IndirectX, execute: Assembly::UDF },
        164 => OpCode { mnemonic: "LDY", size: 2, mode: AddressingMode::ZeroPage, execute: Assembly::LDY },
        165 => OpCode { mnemonic: "LDA", size: 2, mode: AddressingMode::ZeroPage, execute: Assembly::LDA },
        166 => OpCode { mnemonic: "LDX", size: 2, mode: AddressingMode::ZeroPage, execute: Assembly::LDX },
        167 => OpCode { mnemonic: "*LAX", size: 2, mode: AddressingMode::ZeroPage, execute: Assembly::UDF },
        168 => OpCode { mnemonic: "TAY", size: 1, mode: AddressingMode::NoneAddressing, execute: Assembly::TAY },
        169 => OpCode { mnemonic: "LDA", size: 2, mode: AddressingMode::Immediate, execute: Assembly::LDA },
        170 => OpCode { mnemonic: "TAX", size: 1, mode: AddressingMode::NoneAddressing, execute: Assembly::TAX },
        171 => OpCode { mnemonic: "*LXA", size: 2, mode: AddressingMode::Immediate, execute: Assembly::UDF },
        172 => OpCode { mnemonic: "LDY", size: 3, mode: AddressingMode::Absolute, execute: Assembly::LDY },
        173 => OpCode { mnemonic: "LDA", size: 3, mode: AddressingMode::Absolute, execute: Assembly::LDA },
        174 => OpCode { mnemonic: "LDX", size: 3, mode: AddressingMode::Absolute, execute: Assembly::LDX },
        175 => OpCode { mnemonic: "*LAX", size: 3, mode: AddressingMode::Absolute, execute: Assembly::UDF },
        176 => OpCode { mnemonic: "BCS", size: 2, mode: AddressingMode::Immediate, execute: Assembly::BCS },
        177 => OpCode { mnemonic: "LDA", size: 2, mode: AddressingMode::IndirectY, execute: Assembly::LDA },
        178 => OpCode { mnemonic: "*NOP", size: 1, mode: AddressingMode::NoneAddressing, execute: Assembly::NOP },
        179 => OpCode { mnemonic: "*LAX", size: 2, mode: AddressingMode::IndirectY, execute: Assembly::UDF },
        180 => OpCode { mnemonic: "LDY", size: 2, mode: AddressingMode::ZeroPageX, execute: Assembly::LDY },
        181 => OpCode { mnemonic: "LDA", size: 2, mode: AddressingMode::ZeroPageX, execute: Assembly::LDA },
        182 => OpCode { mnemonic: "LDX", size: 2, mode: AddressingMode::ZeroPageY, execute: Assembly::LDX },
        183 => OpCode { mnemonic: "*LAX", size: 2, mode: AddressingMode::ZeroPageY, execute: Assembly::UDF },
        184 => OpCode { mnemonic: "CLV", size: 1, mode: AddressingMode::NoneAddressing, execute: Assembly::CLV },
        185 => OpCode { mnemonic: "LDA", size: 3, mode: AddressingMode::AbsoluteY, execute: Assembly::LDA },
        186 => OpCode { mnemonic: "TSX", size: 1, mode: AddressingMode::NoneAddressing, execute: Assembly::TSX },
        187 => OpCode { mnemonic: "*LAS", size: 3, mode: AddressingMode::AbsoluteY, execute: Assembly::UDF },
        188 => OpCode { mnemonic: "LDY", size: 3, mode: AddressingMode::AbsoluteX, execute: Assembly::LDY },
        189 => OpCode { mnemonic: "LDA", size: 3, mode: AddressingMode::AbsoluteX, execute: Assembly::LDA },
        190 => OpCode { mnemonic: "LDX", size: 3, mode: AddressingMode::AbsoluteY, execute: Assembly::LDX },
        191 => OpCode { mnemonic: "*LAX", size: 3, mode: AddressingMode::AbsoluteY, execute: Assembly::UDF },
        192 => OpCode { mnemonic: "CPY", size: 2, mode: AddressingMode::Immediate, execute: Assembly::CPY },
        193 => OpCode { mnemonic: "CMP", size: 2, mode: AddressingMode::IndirectX, execute: Assembly::CMP },
        194 => OpCode { mnemonic: "*NOP", size: 2, mode: AddressingMode::Immediate, execute: Assembly::NOP },
        195 => OpCode { mnemonic: "*DCP", size: 2, mode: AddressingMode::IndirectX, execute: Assembly::UDF },
        196 => OpCode { mnemonic: "CPY", size: 2, mode: AddressingMode::ZeroPage, execute: Assembly::CPY },
        197 => OpCode { mnemonic: "CMP", size: 2, mode: AddressingMode::ZeroPage, execute: Assembly::CMP },
        198 => OpCode { mnemonic: "DEC", size: 2, mode: AddressingMode::ZeroPage, execute: Assembly::DEC },
        199 => OpCode { mnemonic: "*DCP", size: 2, mode: AddressingMode::ZeroPage, execute: Assembly::UDF },
        200 => OpCode { mnemonic: "INY", size: 1, mode: AddressingMode::NoneAddressing, execute: Assembly::INY },
        201 => OpCode { mnemonic: "CMP", size: 2, mode: AddressingMode::Immediate, execute: Assembly::CMP },
        202 => OpCode { mnemonic: "DEX", size: 1, mode: AddressingMode::NoneAddressing, execute: Assembly::DEX },
        203 => OpCode { mnemonic: "*AXS", size: 2, mode: AddressingMode::Immediate, execute: Assembly::UDF },
        204 => OpCode { mnemonic: "CPY", size: 3, mode: AddressingMode::Absolute, execute: Assembly::CPY },
        205 => OpCode { mnemonic: "CMP", size: 3, mode: AddressingMode::Absolute, execute: Assembly::CMP },
        206 => OpCode { mnemonic: "DEC", size: 3, mode: AddressingMode::Absolute, execute: Assembly::DEC },
        207 => OpCode { mnemonic: "*DCP", size: 3, mode: AddressingMode::Absolute, execute: Assembly::UDF },
        208 => OpCode { mnemonic: "BNE", size: 2, mode: AddressingMode::Immediate, execute: Assembly::BNE },
        209 => OpCode { mnemonic: "CMP", size: 2, mode: AddressingMode::IndirectY, execute: Assembly::CMP },
        210 => OpCode { mnemonic: "*NOP", size: 1, mode: AddressingMode::NoneAddressing, execute: Assembly::NOP },
        211 => OpCode { mnemonic: "*DCP", size: 2, mode: AddressingMode::IndirectY, execute: Assembly::UDF },
        212 => OpCode { mnemonic: "*NOP", size: 2, mode: AddressingMode::ZeroPageX, execute: Assembly::NOP },
        213 => OpCode { mnemonic: "CMP", size: 2, mode: AddressingMode::ZeroPageX, execute: Assembly::CMP },
        214 => OpCode { mnemonic: "DEC", size: 2, mode: AddressingMode::ZeroPageX, execute: Assembly::DEC },
        215 => OpCode { mnemonic: "*DCP", size: 2, mode: AddressingMode::ZeroPageX, execute: Assembly::UDF },
        216 => OpCode { mnemonic: "CLD", size: 1, mode: AddressingMode::NoneAddressing, execute: Assembly::CLD },
        217 => OpCode { mnemonic: "CMP", size: 3, mode: AddressingMode::AbsoluteY, execute: Assembly::CMP },
        218 => OpCode { mnemonic: "*NOP", size: 1, mode: AddressingMode::NoneAddressing, execute: Assembly::NOP },
        219 => OpCode { mnemonic: "*DCP", size: 3, mode: AddressingMode::AbsoluteY, execute: Assembly::UDF },
        220 => OpCode { mnemonic: "*NOP", size: 3, mode: AddressingMode::AbsoluteX, execute: Assembly::NOP },
        221 => OpCode { mnemonic: "CMP", size: 3, mode: AddressingMode::AbsoluteX, execute: Assembly::CMP },
        222 => OpCode { mnemonic: "DEC", size: 3, mode: AddressingMode::AbsoluteX, execute: Assembly::DEC },
        223 => OpCode { mnemonic: "*DCP", size: 3, mode: AddressingMode::AbsoluteX, execute: Assembly::UDF },
        224 => OpCode { mnemonic: "CPX", size: 2, mode: AddressingMode::Immediate, execute: Assembly::CPX },
        225 => OpCode { mnemonic: "SBC", size: 2, mode: AddressingMode::IndirectX, execute: Assembly::SBC },
        226 => OpCode { mnemonic: "*NOP", size: 2, mode: AddressingMode::Immediate, execute: Assembly::NOP },
        227 => OpCode { mnemonic: "*ISB", size: 2, mode: AddressingMode::IndirectX, execute: Assembly::UDF },
        228 => OpCode { mnemonic: "CPX", size: 2, mode: AddressingMode::ZeroPage, execute: Assembly::CPX },
        229 => OpCode { mnemonic: "SBC", size: 2, mode: AddressingMode::ZeroPage, execute: Assembly::SBC },
        230 => OpCode { mnemonic: "INC", size: 2, mode: AddressingMode::ZeroPage, execute: Assembly::INC },
        231 => OpCode { mnemonic: "*ISB", size: 2, mode: AddressingMode::ZeroPage, execute: Assembly::UDF },
        232 => OpCode { mnemonic: "INX", size: 1, mode: AddressingMode::NoneAddressing, execute: Assembly::INX },
        233 => OpCode { mnemonic: "SBC", size: 2, mode: AddressingMode::Immediate, execute: Assembly::SBC },
        234 => OpCode { mnemonic: "NOP", size: 1, mode: AddressingMode::NoneAddressing, execute: Assembly::NOP },
        235 => OpCode { mnemonic: "*SBC", size: 2, mode: AddressingMode::Immediate, execute: Assembly::UDF },
        236 => OpCode { mnemonic: "CPX", size: 3, mode: AddressingMode::Absolute, execute: Assembly::CPX },
        237 => OpCode { mnemonic: "SBC", size: 3, mode: AddressingMode::Absolute, execute: Assembly::SBC },
        238 => OpCode { mnemonic: "INC", size: 3, mode: AddressingMode::Absolute, execute: Assembly::INC },
        239 => OpCode { mnemonic: "*ISB", size: 3, mode: AddressingMode::Absolute, execute: Assembly::UDF },
        240 => OpCode { mnemonic: "BEQ", size: 2, mode: AddressingMode::Immediate, execute: Assembly::BEQ },
        241 => OpCode { mnemonic: "SBC", size: 2, mode: AddressingMode::IndirectY, execute: Assembly::SBC },
        242 => OpCode { mnemonic: "*NOP", size: 1, mode: AddressingMode::NoneAddressing, execute: Assembly::NOP },
        243 => OpCode { mnemonic: "*ISB", size: 2, mode: AddressingMode::IndirectY, execute: Assembly::UDF },
        244 => OpCode { mnemonic: "*NOP", size: 2, mode: AddressingMode::ZeroPageX, execute: Assembly::NOP },
        245 => OpCode { mnemonic: "SBC", size: 2, mode: AddressingMode::ZeroPageX, execute: Assembly::SBC },
        246 => OpCode { mnemonic: "INC", size: 2, mode: AddressingMode::ZeroPageX, execute: Assembly::INC },
        247 => OpCode { mnemonic: "*ISB", size: 2, mode: AddressingMode::ZeroPageX, execute: Assembly::UDF },
        248 => OpCode { mnemonic: "SED", size: 1, mode: AddressingMode::NoneAddressing, execute: Assembly::SED },
        249 => OpCode { mnemonic: "SBC", size: 3, mode: AddressingMode::AbsoluteY, execute: Assembly::SBC },
        250 => OpCode { mnemonic: "*NOP", size: 1, mode: AddressingMode::NoneAddressing, execute: Assembly::NOP },
        251 => OpCode { mnemonic: "*ISB", size: 3, mode: AddressingMode::AbsoluteY, execute: Assembly::UDF },
        252 => OpCode { mnemonic: "*NOP", size: 3, mode: AddressingMode::AbsoluteX, execute: Assembly::NOP },
        253 => OpCode { mnemonic: "SBC", size: 3, mode: AddressingMode::AbsoluteX, execute: Assembly::SBC },
        254 => OpCode { mnemonic: "INC", size: 3, mode: AddressingMode::AbsoluteX, execute: Assembly::INC },
        _ => OpCode { mnemonic: "*ISB", size: 3, mode: AddressingMode::AbsoluteX, execute: Assembly::UDF },
    }
}

} // verus!
