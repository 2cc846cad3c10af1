use vstd::prelude::*;

verus! {

// Quantizing a frequency to a MIDI note number without floating point. The
// note number round(12 * log2(f / 440 Hz) + 69) reaches n exactly when f lies
// at or above the lower edge of note n, a condition that raising both sides
// to the 24th power turns into one between integers. The edges, rounded up to
// the millihertz, stand in a table whose every entry is checked against that
// condition; a frequency is then placed by comparing it with the edges.

/// `x` raised to the 24th power.
pub open spec fn pow24(x: int) -> int {
    let c = x * x * x;
    let s = c * c;
    let q = s * s;
    q * q
}

/// Four raised to the power `n`.
pub open spec fn pow4(n: nat) -> int
    decreases n,
{
    if n == 0 {
        1
    } else {
        4 * pow4((n - 1) as nat)
    }
}

/// Two raised to the 139th power.
pub open spec fn two_139() -> int {
    (0x800 * 0x1_0000_0000 * 0x1_0000_0000 * 0x1_0000_0000 * 0x1_0000_0000) as int
}

/// A frequency of `f` millihertz lies at or above the lower edge of MIDI note
/// `n`, that is 12 * log2(f / 440 Hz) + 69 >= n - 1/2. Multiplied out, with
/// both sides raised to the 24th power: (f / 440000)^24 >= 2^(2n - 139).
pub open spec fn at_or_above(f: int, n: nat) -> bool {
    pow24(f) * two_139() >= pow24(440000) * pow4(n)
}

/// The lower edge of note `n` is `e` millihertz, rounded up: `e` reaches it,
/// `e - 1` does not.
pub open spec fn is_edge(e: int, n: nat) -> bool {
    at_or_above(e, n) && !at_or_above(e - 1, n)
}

/// The lower edges of notes 1 to 16.
proof fn lemma_edges_1_to_16()
    ensures
        pow4(16) == (0x1_0000_0000) as int,
        is_edge(8_416, 1),
        is_edge(8_916, 2),
        is_edge(9_446, 3),
        is_edge(10_008, 4),
        is_edge(10_603, 5),
        is_edge(11_234, 6),
        is_edge(11_902, 7),
        is_edge(12_609, 8),
        is_edge(13_359, 9),
        is_edge(14_153, 10),
        is_edge(14_995, 11),
        is_edge(15_887, 12),
        is_edge(16_831, 13),
        is_edge(17_832, 14),
        is_edge(18_892, 15),
        is_edge(20_016, 16),
{
    assert(pow4(0) == 1);
    assert(pow4(1) == 4);
    assert(is_edge(8_416, 1)) by (nonlinear_arith)
        requires
            pow4(1) == 4,
    ;
    assert(pow4(2) == 16);
    assert(is_edge(8_916, 2)) by (nonlinear_arith)
        requires
            pow4(2) == 16,
    ;
    assert(pow4(3) == 64);
    assert(is_edge(9_446, 3)) by (nonlinear_arith)
        requires
            pow4(3) == 64,
    ;
    assert(pow4(4) == 256);
    assert(is_edge(10_008, 4)) by (nonlinear_arith)
        requires
            pow4(4) == 256,
    ;
    assert(pow4(5) == 1_024);
    assert(is_edge(10_603, 5)) by (nonlinear_arith)
        requires
            pow4(5) == 1_024,
    ;
    assert(pow4(6) == 4_096);
    assert(is_edge(11_234, 6)) by (nonlinear_arith)
        requires
            pow4(6) == 4_096,
    ;
    assert(pow4(7) == 16_384);
    assert(is_edge(11_902, 7)) by (nonlinear_arith)
        requires
            pow4(7) == 16_384,
    ;
    assert(pow4(8) == 65_536);
    assert(is_edge(12_609, 8)) by (nonlinear_arith)
        requires
            pow4(8) == 65_536,
    ;
    assert(pow4(9) == 262_144);
    assert(is_edge(13_359, 9)) by (nonlinear_arith)
        requires
            pow4(9) == 262_144,
    ;
    assert(pow4(10) == 1_048_576);
    assert(is_edge(14_153, 10)) by (nonlinear_arith)
        requires
            pow4(10) == 1_048_576,
    ;
    assert(pow4(11) == 4_194_304);
    assert(is_edge(14_995, 11)) by (nonlinear_arith)
        requires
            pow4(11) == 4_194_304,
    ;
    assert(pow4(12) == 16_777_216);
    assert(is_edge(15_887, 12)) by (nonlinear_arith)
        requires
            pow4(12) == 16_777_216,
    ;
    assert(pow4(13) == 67_108_864);
    assert(is_edge(16_831, 13)) by (nonlinear_arith)
        requires
            pow4(13) == 67_108_864,
    ;
    assert(pow4(14) == 268_435_456);
    assert(is_edge(17_832, 14)) by (nonlinear_arith)
        requires
            pow4(14) == 268_435_456,
    ;
    assert(pow4(15) == 1_073_741_824);
    assert(is_edge(18_892, 15)) by (nonlinear_arith)
        requires
            pow4(15) == 1_073_741_824,
    ;
    assert(pow4(16) == 4_294_967_296);
    assert(is_edge(20_016, 16)) by (nonlinear_arith)
        requires
            pow4(16) == 4_294_967_296,
    ;
}

/// The lower edges of notes 17 to 32.
proof fn lemma_edges_17_to_32()
    requires
        pow4(16) == (0x1_0000_0000) as int,
    ensures
        pow4(32) == (0x1_0000_0000 * 0x1_0000_0000) as int,
        is_edge(21_206, 17),
        is_edge(22_467, 18),
        is_edge(23_803, 19),
        is_edge(25_218, 20),
        is_edge(26_718, 21),
        is_edge(28_306, 22),
        is_edge(29_989, 23),
        is_edge(31_773, 24),
        is_edge(33_662, 25),
        is_edge(35_664, 26),
        is_edge(37_784, 27),
        is_edge(40_031, 28),
        is_edge(42_411, 29),
        is_edge(44_933, 30),
        is_edge(47_605, 31),
        is_edge(50_436, 32),
{
    assert(pow4(16) == 4_294_967_296);
    assert(pow4(17) == 17_179_869_184);
    assert(is_edge(21_206, 17)) by (nonlinear_arith)
        requires
            pow4(17) == 17_179_869_184,
    ;
    assert(pow4(18) == 68_719_476_736);
    assert(is_edge(22_467, 18)) by (nonlinear_arith)
        requires
            pow4(18) == 68_719_476_736,
    ;
    assert(pow4(19) == 274_877_906_944);
    assert(is_edge(23_803, 19)) by (nonlinear_arith)
        requires
            pow4(19) == 274_877_906_944,
    ;
    assert(pow4(20) == 1_099_511_627_776);
    assert(is_edge(25_218, 20)) by (nonlinear_arith)
        requires
            pow4(20) == 1_099_511_627_776,
    ;
    assert(pow4(21) == 4_398_046_511_104);
    assert(is_edge(26_718, 21)) by (nonlinear_arith)
        requires
            pow4(21) == 4_398_046_511_104,
    ;
    assert(pow4(22) == 17_592_186_044_416);
    assert(is_edge(28_306, 22)) by (nonlinear_arith)
        requires
            pow4(22) == 17_592_186_044_416,
    ;
    assert(pow4(23) == 70_368_744_177_664);
    assert(is_edge(29_989, 23)) by (nonlinear_arith)
        requires
            pow4(23) == 70_368_744_177_664,
    ;
    assert(pow4(24) == 281_474_976_710_656);
    assert(is_edge(31_773, 24)) by (nonlinear_arith)
        requires
            pow4(24) == 281_474_976_710_656,
    ;
    assert(pow4(25) == 1_125_899_906_842_624);
    assert(is_edge(33_662, 25)) by (nonlinear_arith)
        requires
            pow4(25) == 1_125_899_906_842_624,
    ;
    assert(pow4(26) == 4_503_599_627_370_496);
    assert(is_edge(35_664, 26)) by (nonlinear_arith)
        requires
            pow4(26) == 4_503_599_627_370_496,
    ;
    assert(pow4(27) == 18_014_398_509_481_984);
    assert(is_edge(37_784, 27)) by (nonlinear_arith)
        requires
            pow4(27) == 18_014_398_509_481_984,
    ;
    assert(pow4(28) == 72_057_594_037_927_936);
    assert(is_edge(40_031, 28)) by (nonlinear_arith)
        requires
            pow4(28) == 72_057_594_037_927_936,
    ;
    assert(pow4(29) == 288_230_376_151_711_744);
    assert(is_edge(42_411, 29)) by (nonlinear_arith)
        requires
            pow4(29) == 288_230_376_151_711_744,
    ;
    assert(pow4(30) == 1_152_921_504_606_846_976);
    assert(is_edge(44_933, 30)) by (nonlinear_arith)
        requires
            pow4(30) == 1_152_921_504_606_846_976,
    ;
    assert(pow4(31) == 4_611_686_018_427_387_904);
    assert(is_edge(47_605, 31)) by (nonlinear_arith)
        requires
            pow4(31) == 4_611_686_018_427_387_904,
    ;
    assert(pow4(32) == 18446744073709551616);
    assert(is_edge(50_436, 32)) by (nonlinear_arith)
        requires
            pow4(32) == 18446744073709551616,
    ;
}

/// The lower edges of notes 33 to 48.
proof fn lemma_edges_33_to_48()
    requires
        pow4(32) == (0x1_0000_0000 * 0x1_0000_0000) as int,
    ensures
        pow4(48) == (0x1_0000_0000 * 0x1_0000_0000 * 0x1_0000_0000) as int,
        is_edge(53_435, 33),
        is_edge(56_612, 34),
        is_edge(59_978, 35),
        is_edge(63_545, 36),
        is_edge(67_323, 37),
        is_edge(71_327, 38),
        is_edge(75_568, 39),
        is_edge(80_061, 40),
        is_edge(84_822, 41),
        is_edge(89_866, 42),
        is_edge(95_210, 43),
        is_edge(100_871, 44),
        is_edge(106_869, 45),
        is_edge(113_224, 46),
        is_edge(119_956, 47),
        is_edge(127_089, 48),
{
    assert(pow4(32) == 18446744073709551616);
    assert(pow4(33) == 73786976294838206464);
    assert(is_edge(53_435, 33)) by (nonlinear_arith)
        requires
            pow4(33) == 73786976294838206464,
    ;
    assert(pow4(34) == 295147905179352825856);
    assert(is_edge(56_612, 34)) by (nonlinear_arith)
        requires
            pow4(34) == 295147905179352825856,
    ;
    assert(pow4(35) == 1180591620717411303424);
    assert(is_edge(59_978, 35)) by (nonlinear_arith)
        requires
            pow4(35) == 1180591620717411303424,
    ;
    assert(pow4(36) == 4722366482869645213696);
    assert(is_edge(63_545, 36)) by (nonlinear_arith)
        requires
            pow4(36) == 4722366482869645213696,
    ;
    assert(pow4(37) == 18889465931478580854784);
    assert(is_edge(67_323, 37)) by (nonlinear_arith)
        requires
            pow4(37) == 18889465931478580854784,
    ;
    assert(pow4(38) == 75557863725914323419136);
    assert(is_edge(71_327, 38)) by (nonlinear_arith)
        requires
            pow4(38) == 75557863725914323419136,
    ;
    assert(pow4(39) == 302231454903657293676544);
    assert(is_edge(75_568, 39)) by (nonlinear_arith)
        requires
            pow4(39) == 302231454903657293676544,
    ;
    assert(pow4(40) == 1208925819614629174706176);
    assert(is_edge(80_061, 40)) by (nonlinear_arith)
        requires
            pow4(40) == 1208925819614629174706176,
    ;
    assert(pow4(41) == 4835703278458516698824704);
    assert(is_edge(84_822, 41)) by (nonlinear_arith)
        requires
            pow4(41) == 4835703278458516698824704,
    ;
    assert(pow4(42) == 19342813113834066795298816);
    assert(is_edge(89_866, 42)) by (nonlinear_arith)
        requires
            pow4(42) == 19342813113834066795298816,
    ;
    assert(pow4(43) == 77371252455336267181195264);
    assert(is_edge(95_210, 43)) by (nonlinear_arith)
        requires
            pow4(43) == 77371252455336267181195264,
    ;
    assert(pow4(44) == 309485009821345068724781056);
    assert(is_edge(100_871, 44)) by (nonlinear_arith)
        requires
            pow4(44) == 309485009821345068724781056,
    ;
    assert(pow4(45) == 1237940039285380274899124224);
    assert(is_edge(106_869, 45)) by (nonlinear_arith)
        requires
            pow4(45) == 1237940039285380274899124224,
    ;
    assert(pow4(46) == 4951760157141521099596496896);
    assert(is_edge(113_224, 46)) by (nonlinear_arith)
        requires
            pow4(46) == 4951760157141521099596496896,
    ;
    assert(pow4(47) == 19807040628566084398385987584);
    assert(is_edge(119_956, 47)) by (nonlinear_arith)
        requires
            pow4(47) == 19807040628566084398385987584,
    ;
    assert(pow4(48) == 79228162514264337593543950336);
    assert(is_edge(127_089, 48)) by (nonlinear_arith)
        requires
            pow4(48) == 79228162514264337593543950336,
    ;
}

/// The lower edges of notes 49 to 64.
proof fn lemma_edges_49_to_64()
    requires
        pow4(48) == (0x1_0000_0000 * 0x1_0000_0000 * 0x1_0000_0000) as int,
    ensures
        pow4(64) == (0x1_0000_0000 * 0x1_0000_0000 * 0x1_0000_0000 * 0x1_0000_0000) as int,
        is_edge(134_646, 49),
        is_edge(142_653, 50),
        is_edge(151_135, 51),
        is_edge(160_122, 52),
        is_edge(169_644, 53),
        is_edge(179_731, 54),
        is_edge(190_419, 55),
        is_edge(201_741, 56),
        is_edge(213_738, 57),
        is_edge(226_447, 58),
        is_edge(239_912, 59),
        is_edge(254_178, 60),
        is_edge(269_292, 61),
        is_edge(285_305, 62),
        is_edge(302_270, 63),
        is_edge(320_244, 64),
{
    assert(pow4(48) == 79228162514264337593543950336);
    assert(pow4(49) == 316912650057057350374175801344);
    assert(is_edge(134_646, 49)) by (nonlinear_arith)
        requires
            pow4(49) == 316912650057057350374175801344,
    ;
    assert(pow4(50) == 1267650600228229401496703205376);
    assert(is_edge(142_653, 50)) by (nonlinear_arith)
        requires
            pow4(50) == 1267650600228229401496703205376,
    ;
    assert(pow4(51) == 5070602400912917605986812821504);
    assert(is_edge(151_135, 51)) by (nonlinear_arith)
        requires
            pow4(51) == 5070602400912917605986812821504,
    ;
    assert(pow4(52) == 20282409603651670423947251286016);
    assert(is_edge(160_122, 52)) by (nonlinear_arith)
        requires
            pow4(52) == 20282409603651670423947251286016,
    ;
    assert(pow4(53) == 81129638414606681695789005144064);
    assert(is_edge(169_644, 53)) by (nonlinear_arith)
        requires
            pow4(53) == 81129638414606681695789005144064,
    ;
    assert(pow4(54) == 324518553658426726783156020576256);
    assert(is_edge(179_731, 54)) by (nonlinear_arith)
        requires
            pow4(54) == 324518553658426726783156020576256,
    ;
    assert(pow4(55) == 1298074214633706907132624082305024);
    assert(is_edge(190_419, 55)) by (nonlinear_arith)
        requires
            pow4(55) == 1298074214633706907132624082305024,
    ;
    assert(pow4(56) == 5192296858534827628530496329220096);
    assert(is_edge(201_741, 56)) by (nonlinear_arith)
        requires
            pow4(56) == 5192296858534827628530496329220096,
    ;
    assert(pow4(57) == 20769187434139310514121985316880384);
    assert(is_edge(213_738, 57)) by (nonlinear_arith)
        requires
            pow4(57) == 20769187434139310514121985316880384,
    ;
    assert(pow4(58) == 83076749736557242056487941267521536);
    assert(is_edge(226_447, 58)) by (nonlinear_arith)
        requires
            pow4(58) == 83076749736557242056487941267521536,
    ;
    assert(pow4(59) == 332306998946228968225951765070086144);
    assert(is_edge(239_912, 59)) by (nonlinear_arith)
        requires
            pow4(59) == 332306998946228968225951765070086144,
    ;
    assert(pow4(60) == 1329227995784915872903807060280344576);
    assert(is_edge(254_178, 60)) by (nonlinear_arith)
        requires
            pow4(60) == 1329227995784915872903807060280344576,
    ;
    assert(pow4(61) == 5316911983139663491615228241121378304);
    assert(is_edge(269_292, 61)) by (nonlinear_arith)
        requires
            pow4(61) == 5316911983139663491615228241121378304,
    ;
    assert(pow4(62) == 21267647932558653966460912964485513216);
    assert(is_edge(285_305, 62)) by (nonlinear_arith)
        requires
            pow4(62) == 21267647932558653966460912964485513216,
    ;
    assert(pow4(63) == 85070591730234615865843651857942052864);
    assert(is_edge(302_270, 63)) by (nonlinear_arith)
        requires
            pow4(63) == 85070591730234615865843651857942052864,
    ;
    assert(pow4(64) == 340282366920938463463374607431768211456);
    assert(is_edge(320_244, 64)) by (nonlinear_arith)
        requires
            pow4(64) == 340282366920938463463374607431768211456,
    ;
}

/// The lower edges of notes 65 to 80.
proof fn lemma_edges_65_to_80()
    requires
        pow4(64) == (0x1_0000_0000 * 0x1_0000_0000 * 0x1_0000_0000 * 0x1_0000_0000) as int,
    ensures
        pow4(80) == (0x1_0000_0000 * 0x1_0000_0000 * 0x1_0000_0000 * 0x1_0000_0000 * 0x1_0000_0000) as int,
        is_edge(339_287, 65),
        is_edge(359_462, 66),
        is_edge(380_837, 67),
        is_edge(403_482, 68),
        is_edge(427_475, 69),
        is_edge(452_893, 70),
        is_edge(479_824, 71),
        is_edge(508_356, 72),
        is_edge(538_584, 73),
        is_edge(570_610, 74),
        is_edge(604_540, 75),
        is_edge(640_488, 76),
        is_edge(678_573, 77),
        is_edge(718_923, 78),
        is_edge(761_673, 79),
        is_edge(806_964, 80),
{
    assert(pow4(64) == 340282366920938463463374607431768211456);
    assert(pow4(65) == 1361129467683753853853498429727072845824);
    assert(is_edge(339_287, 65)) by (nonlinear_arith)
        requires
            pow4(65) == 1361129467683753853853498429727072845824,
    ;
    assert(pow4(66) == 5444517870735015415413993718908291383296);
    assert(is_edge(359_462, 66)) by (nonlinear_arith)
        requires
            pow4(66) == 5444517870735015415413993718908291383296,
    ;
    assert(pow4(67) == 21778071482940061661655974875633165533184);
    assert(is_edge(380_837, 67)) by (nonlinear_arith)
        requires
            pow4(67) == 21778071482940061661655974875633165533184,
    ;
    assert(pow4(68) == 87112285931760246646623899502532662132736);
    assert(is_edge(403_482, 68)) by (nonlinear_arith)
        requires
            pow4(68) == 87112285931760246646623899502532662132736,
    ;
    assert(pow4(69) == 348449143727040986586495598010130648530944);
    assert(is_edge(427_475, 69)) by (nonlinear_arith)
        requires
            pow4(69) == 348449143727040986586495598010130648530944,
    ;
    assert(pow4(70) == 1393796574908163946345982392040522594123776);
    assert(is_edge(452_893, 70)) by (nonlinear_arith)
        requires
            pow4(70) == 1393796574908163946345982392040522594123776,
    ;
    assert(pow4(71) == 5575186299632655785383929568162090376495104);
    assert(is_edge(479_824, 71)) by (nonlinear_arith)
        requires
            pow4(71) == 5575186299632655785383929568162090376495104,
    ;
    assert(pow4(72) == 22300745198530623141535718272648361505980416);
    assert(is_edge(508_356, 72)) by (nonlinear_arith)
        requires
            pow4(72) == 22300745198530623141535718272648361505980416,
    ;
    assert(pow4(73) == 89202980794122492566142873090593446023921664);
    assert(is_edge(538_584, 73)) by (nonlinear_arith)
        requires
            pow4(73) == 89202980794122492566142873090593446023921664,
    ;
    assert(pow4(74) == 356811923176489970264571492362373784095686656);
    assert(is_edge(570_610, 74)) by (nonlinear_arith)
        requires
            pow4(74) == 356811923176489970264571492362373784095686656,
    ;
    assert(pow4(75) == 1427247692705959881058285969449495136382746624);
    assert(is_edge(604_540, 75)) by (nonlinear_arith)
        requires
            pow4(75) == 1427247692705959881058285969449495136382746624,
    ;
    assert(pow4(76) == 5708990770823839524233143877797980545530986496);
    assert(is_edge(640_488, 76)) by (nonlinear_arith)
        requires
            pow4(76) == 5708990770823839524233143877797980545530986496,
    ;
    assert(pow4(77) == 22835963083295358096932575511191922182123945984);
    assert(is_edge(678_573, 77)) by (nonlinear_arith)
        requires
            pow4(77) == 22835963083295358096932575511191922182123945984,
    ;
    assert(pow4(78) == 91343852333181432387730302044767688728495783936);
    assert(is_edge(718_923, 78)) by (nonlinear_arith)
        requires
            pow4(78) == 91343852333181432387730302044767688728495783936,
    ;
    assert(pow4(79) == 365375409332725729550921208179070754913983135744);
    assert(is_edge(761_673, 79)) by (nonlinear_arith)
        requires
            pow4(79) == 365375409332725729550921208179070754913983135744,
    ;
    assert(pow4(80) == 1461501637330902918203684832716283019655932542976);
    assert(is_edge(806_964, 80)) by (nonlinear_arith)
        requires
            pow4(80) == 1461501637330902918203684832716283019655932542976,
    ;
}

/// The lower edges of notes 81 to 96.
proof fn lemma_edges_81_to_96()
    requires
        pow4(80) == (0x1_0000_0000 * 0x1_0000_0000 * 0x1_0000_0000 * 0x1_0000_0000 * 0x1_0000_0000) as int,
    ensures
        pow4(96) == (0x1_0000_0000 * 0x1_0000_0000 * 0x1_0000_0000 * 0x1_0000_0000 * 0x1_0000_0000 * 0x1_0000_0000) as int,
        is_edge(854_949, 81),
        is_edge(905_786, 82),
        is_edge(959_647, 83),
        is_edge(1_016_711, 84),
        is_edge(1_077_168, 85),
        is_edge(1_141_219, 86),
        is_edge(1_209_080, 87),
        is_edge(1_280_975, 88),
        is_edge(1_357_146, 89),
        is_edge(1_437_846, 90),
        is_edge(1_523_345, 91),
        is_edge(1_613_928, 92),
        is_edge(1_709_897, 93),
        is_edge(1_811_572, 94),
        is_edge(1_919_294, 95),
        is_edge(2_033_421, 96),
{
    assert(pow4(80) == 1461501637330902918203684832716283019655932542976);
    assert(pow4(81) == 5846006549323611672814739330865132078623730171904);
    assert(is_edge(854_949, 81)) by (nonlinear_arith)
        requires
            pow4(81) == 5846006549323611672814739330865132078623730171904,
    ;
    assert(pow4(82) == 23384026197294446691258957323460528314494920687616);
    assert(is_edge(905_786, 82)) by (nonlinear_arith)
        requires
            pow4(82) == 23384026197294446691258957323460528314494920687616,
    ;
    assert(pow4(83) == 93536104789177786765035829293842113257979682750464);
    assert(is_edge(959_647, 83)) by (nonlinear_arith)
        requires
            pow4(83) == 93536104789177786765035829293842113257979682750464,
    ;
    assert(pow4(84) == 374144419156711147060143317175368453031918731001856);
    assert(is_edge(1_016_711, 84)) by (nonlinear_arith)
        requires
            pow4(84) == 374144419156711147060143317175368453031918731001856,
    ;
    assert(pow4(85) == 1496577676626844588240573268701473812127674924007424);
    assert(is_edge(1_077_168, 85)) by (nonlinear_arith)
        requires
            pow4(85) == 1496577676626844588240573268701473812127674924007424,
    ;
    assert(pow4(86) == 5986310706507378352962293074805895248510699696029696);
    assert(is_edge(1_141_219, 86)) by (nonlinear_arith)
        requires
            pow4(86) == 5986310706507378352962293074805895248510699696029696,
    ;
    assert(pow4(87) == 23945242826029513411849172299223580994042798784118784);
    assert(is_edge(1_209_080, 87)) by (nonlinear_arith)
        requires
            pow4(87) == 23945242826029513411849172299223580994042798784118784,
    ;
    assert(pow4(88) == 95780971304118053647396689196894323976171195136475136);
    assert(is_edge(1_280_975, 88)) by (nonlinear_arith)
        requires
            pow4(88) == 95780971304118053647396689196894323976171195136475136,
    ;
    assert(pow4(89) == 383123885216472214589586756787577295904684780545900544);
    assert(is_edge(1_357_146, 89)) by (nonlinear_arith)
        requires
            pow4(89) == 383123885216472214589586756787577295904684780545900544,
    ;
    assert(pow4(90) == 1532495540865888858358347027150309183618739122183602176);
    assert(is_edge(1_437_846, 90)) by (nonlinear_arith)
        requires
            pow4(90) == 1532495540865888858358347027150309183618739122183602176,
    ;
    assert(pow4(91) == 6129982163463555433433388108601236734474956488734408704);
    assert(is_edge(1_523_345, 91)) by (nonlinear_arith)
        requires
            pow4(91) == 6129982163463555433433388108601236734474956488734408704,
    ;
    assert(pow4(92) == 24519928653854221733733552434404946937899825954937634816);
    assert(is_edge(1_613_928, 92)) by (nonlinear_arith)
        requires
            pow4(92) == 24519928653854221733733552434404946937899825954937634816,
    ;
    assert(pow4(93) == 98079714615416886934934209737619787751599303819750539264);
    assert(is_edge(1_709_897, 93)) by (nonlinear_arith)
        requires
            pow4(93) == 98079714615416886934934209737619787751599303819750539264,
    ;
    assert(pow4(94) == 392318858461667547739736838950479151006397215279002157056);
    assert(is_edge(1_811_572, 94)) by (nonlinear_arith)
        requires
            pow4(94) == 392318858461667547739736838950479151006397215279002157056,
    ;
    assert(pow4(95) == 1569275433846670190958947355801916604025588861116008628224);
    assert(is_edge(1_919_294, 95)) by (nonlinear_arith)
        requires
            pow4(95) == 1569275433846670190958947355801916604025588861116008628224,
    ;
    assert(pow4(96) == 6277101735386680763835789423207666416102355444464034512896);
    assert(is_edge(2_033_421, 96)) by (nonlinear_arith)
        requires
            pow4(96) == 6277101735386680763835789423207666416102355444464034512896,
    ;
}

/// The lower edges of notes 97 to 112.
proof fn lemma_edges_97_to_112()
    requires
        pow4(96) == (0x1_0000_0000 * 0x1_0000_0000 * 0x1_0000_0000 * 0x1_0000_0000 * 0x1_0000_0000 * 0x1_0000_0000) as int,
    ensures
        pow4(112) == (0x1_0000_0000 * 0x1_0000_0000 * 0x1_0000_0000 * 0x1_0000_0000 * 0x1_0000_0000 * 0x1_0000_0000 * 0x1_0000_0000) as int,
        is_edge(2_154_335, 97),
        is_edge(2_282_438, 98),
        is_edge(2_418_159, 99),
        is_edge(2_561_950, 100),
        is_edge(2_714_292, 101),
        is_edge(2_875_692, 102),
        is_edge(3_046_689, 103),
        is_edge(3_227_855, 104),
        is_edge(3_419_793, 105),
        is_edge(3_623_144, 106),
        is_edge(3_838_588, 107),
        is_edge(4_066_842, 108),
        is_edge(4_308_669, 109),
        is_edge(4_564_876, 110),
        is_edge(4_836_317, 111),
        is_edge(5_123_900, 112),
{
    assert(pow4(96) == 6277101735386680763835789423207666416102355444464034512896);
    assert(pow4(97) == 25108406941546723055343157692830665664409421777856138051584);
    assert(is_edge(2_154_335, 97)) by (nonlinear_arith)
        requires
            pow4(97) == 25108406941546723055343157692830665664409421777856138051584,
    ;
    assert(pow4(98) == 100433627766186892221372630771322662657637687111424552206336);
    assert(is_edge(2_282_438, 98)) by (nonlinear_arith)
        requires
            pow4(98) == 100433627766186892221372630771322662657637687111424552206336,
    ;
    assert(pow4(99) == 401734511064747568885490523085290650630550748445698208825344);
    assert(is_edge(2_418_159, 99)) by (nonlinear_arith)
        requires
            pow4(99) == 401734511064747568885490523085290650630550748445698208825344,
    ;
    assert(pow4(100) == 1606938044258990275541962092341162602522202993782792835301376);
    assert(is_edge(2_561_950, 100)) by (nonlinear_arith)
        requires
            pow4(100) == 1606938044258990275541962092341162602522202993782792835301376,
    ;
    assert(pow4(101) == 6427752177035961102167848369364650410088811975131171341205504);
    assert(is_edge(2_714_292, 101)) by (nonlinear_arith)
        requires
            pow4(101) == 6427752177035961102167848369364650410088811975131171341205504,
    ;
    assert(pow4(102) == 25711008708143844408671393477458601640355247900524685364822016);
    assert(is_edge(2_875_692, 102)) by (nonlinear_arith)
        requires
            pow4(102) == 25711008708143844408671393477458601640355247900524685364822016,
    ;
    assert(pow4(103) == 102844034832575377634685573909834406561420991602098741459288064);
    assert(is_edge(3_046_689, 103)) by (nonlinear_arith)
        requires
            pow4(103) == 102844034832575377634685573909834406561420991602098741459288064,
    ;
    assert(pow4(104) == 411376139330301510538742295639337626245683966408394965837152256);
    assert(is_edge(3_227_855, 104)) by (nonlinear_arith)
        requires
            pow4(104) == 411376139330301510538742295639337626245683966408394965837152256,
    ;
    assert(pow4(105) == 1645504557321206042154969182557350504982735865633579863348609024);
    assert(is_edge(3_419_793, 105)) by (nonlinear_arith)
        requires
            pow4(105) == 1645504557321206042154969182557350504982735865633579863348609024,
    ;
    assert(pow4(106) == 6582018229284824168619876730229402019930943462534319453394436096);
    assert(is_edge(3_623_144, 106)) by (nonlinear_arith)
        requires
            pow4(106) == 6582018229284824168619876730229402019930943462534319453394436096,
    ;
    assert(pow4(107) == 26328072917139296674479506920917608079723773850137277813577744384);
    assert(is_edge(3_838_588, 107)) by (nonlinear_arith)
        requires
            pow4(107) == 26328072917139296674479506920917608079723773850137277813577744384,
    ;
    assert(pow4(108) == 105312291668557186697918027683670432318895095400549111254310977536);
    assert(is_edge(4_066_842, 108)) by (nonlinear_arith)
        requires
            pow4(108) == 105312291668557186697918027683670432318895095400549111254310977536,
    ;
    assert(pow4(109) == 421249166674228746791672110734681729275580381602196445017243910144);
    assert(is_edge(4_308_669, 109)) by (nonlinear_arith)
        requires
            pow4(109) == 421249166674228746791672110734681729275580381602196445017243910144,
    ;
    assert(pow4(110) == 1684996666696914987166688442938726917102321526408785780068975640576);
    assert(is_edge(4_564_876, 110)) by (nonlinear_arith)
        requires
            pow4(110) == 1684996666696914987166688442938726917102321526408785780068975640576,
    ;
    assert(pow4(111) == 6739986666787659948666753771754907668409286105635143120275902562304);
    assert(is_edge(4_836_317, 111)) by (nonlinear_arith)
        requires
            pow4(111) == 6739986666787659948666753771754907668409286105635143120275902562304,
    ;
    assert(pow4(112) == 26959946667150639794667015087019630673637144422540572481103610249216);
    assert(is_edge(5_123_900, 112)) by (nonlinear_arith)
        requires
            pow4(112) == 26959946667150639794667015087019630673637144422540572481103610249216,
    ;
}

/// The lower edges of notes 113 to 127.
proof fn lemma_edges_113_to_127()
    requires
        pow4(112) == (0x1_0000_0000 * 0x1_0000_0000 * 0x1_0000_0000 * 0x1_0000_0000 * 0x1_0000_0000 * 0x1_0000_0000 * 0x1_0000_0000) as int,
    ensures
        pow4(127) == (0x1_0000_0000 * 0x1_0000_0000 * 0x1_0000_0000 * 0x1_0000_0000 * 0x1_0000_0000 * 0x1_0000_0000 * 0x1_0000_0000 * 0x40000000) as int,
        is_edge(5_428_583, 113),
        is_edge(5_751_383, 114),
        is_edge(6_093_378, 115),
        is_edge(6_455_709, 116),
        is_edge(6_839_585, 117),
        is_edge(7_246_288, 118),
        is_edge(7_677_175, 119),
        is_edge(8_133_683, 120),
        is_edge(8_617_337, 121),
        is_edge(9_129_751, 122),
        is_edge(9_672_634, 123),
        is_edge(10_247_799, 124),
        is_edge(10_857_165, 125),
        is_edge(11_502_765, 126),
        is_edge(12_186_755, 127),
{
    assert(pow4(112) == 26959946667150639794667015087019630673637144422540572481103610249216);
    assert(pow4(113) == 107839786668602559178668060348078522694548577690162289924414440996864);
    assert(is_edge(5_428_583, 113)) by (nonlinear_arith)
        requires
            pow4(113) == 107839786668602559178668060348078522694548577690162289924414440996864,
    ;
    assert(pow4(114) == 431359146674410236714672241392314090778194310760649159697657763987456);
    assert(is_edge(5_751_383, 114)) by (nonlinear_arith)
        requires
            pow4(114) == 431359146674410236714672241392314090778194310760649159697657763987456,
    ;
    assert(pow4(115) == 1725436586697640946858688965569256363112777243042596638790631055949824);
    assert(is_edge(6_093_378, 115)) by (nonlinear_arith)
        requires
            pow4(115) == 1725436586697640946858688965569256363112777243042596638790631055949824,
    ;
    assert(pow4(116) == 6901746346790563787434755862277025452451108972170386555162524223799296);
    assert(is_edge(6_455_709, 116)) by (nonlinear_arith)
        requires
            pow4(116) == 6901746346790563787434755862277025452451108972170386555162524223799296,
    ;
    assert(pow4(117) == 27606985387162255149739023449108101809804435888681546220650096895197184);
    assert(is_edge(6_839_585, 117)) by (nonlinear_arith)
        requires
            pow4(117) == 27606985387162255149739023449108101809804435888681546220650096895197184,
    ;
    assert(pow4(118) == 110427941548649020598956093796432407239217743554726184882600387580788736);
    assert(is_edge(7_246_288, 118)) by (nonlinear_arith)
        requires
            pow4(118) == 110427941548649020598956093796432407239217743554726184882600387580788736,
    ;
    assert(pow4(119) == 441711766194596082395824375185729628956870974218904739530401550323154944);
    assert(is_edge(7_677_175, 119)) by (nonlinear_arith)
        requires
            pow4(119) == 441711766194596082395824375185729628956870974218904739530401550323154944,
    ;
    assert(pow4(120) == 1766847064778384329583297500742918515827483896875618958121606201292619776);
    assert(is_edge(8_133_683, 120)) by (nonlinear_arith)
        requires
            pow4(120) == 1766847064778384329583297500742918515827483896875618958121606201292619776,
    ;
    assert(pow4(121) == 7067388259113537318333190002971674063309935587502475832486424805170479104);
    assert(is_edge(8_617_337, 121)) by (nonlinear_arith)
        requires
            pow4(121) == 7067388259113537318333190002971674063309935587502475832486424805170479104,
    ;
    assert(pow4(122) == 28269553036454149273332760011886696253239742350009903329945699220681916416);
    assert(is_edge(9_129_751, 122)) by (nonlinear_arith)
        requires
            pow4(122) == 28269553036454149273332760011886696253239742350009903329945699220681916416,
    ;
    assert(pow4(123) == 113078212145816597093331040047546785012958969400039613319782796882727665664);
    assert(is_edge(9_672_634, 123)) by (nonlinear_arith)
        requires
            pow4(123) == 113078212145816597093331040047546785012958969400039613319782796882727665664,
    ;
    assert(pow4(124) == 452312848583266388373324160190187140051835877600158453279131187530910662656);
    assert(is_edge(10_247_799, 124)) by (nonlinear_arith)
        requires
            pow4(124) == 452312848583266388373324160190187140051835877600158453279131187530910662656,
    ;
    assert(pow4(125) == 1809251394333065553493296640760748560207343510400633813116524750123642650624);
    assert(is_edge(10_857_165, 125)) by (nonlinear_arith)
        requires
            pow4(125) == 1809251394333065553493296640760748560207343510400633813116524750123642650624,
    ;
    assert(pow4(126) == 7237005577332262213973186563042994240829374041602535252466099000494570602496);
    assert(is_edge(11_502_765, 126)) by (nonlinear_arith)
        requires
            pow4(126) == 7237005577332262213973186563042994240829374041602535252466099000494570602496,
    ;
    assert(pow4(127) == 28948022309329048855892746252171976963317496166410141009864396001978282409984);
    assert(is_edge(12_186_755, 127)) by (nonlinear_arith)
        requires
            pow4(127) == 28948022309329048855892746252171976963317496166410141009864396001978282409984,
    ;
}

/// The lower edges of all notes from 1 to 127.
proof fn lemma_edges()
    ensures
        is_edge(8_416, 1),
        is_edge(8_916, 2),
        is_edge(9_446, 3),
        is_edge(10_008, 4),
        is_edge(10_603, 5),
        is_edge(11_234, 6),
        is_edge(11_902, 7),
        is_edge(12_609, 8),
        is_edge(13_359, 9),
        is_edge(14_153, 10),
        is_edge(14_995, 11),
        is_edge(15_887, 12),
        is_edge(16_831, 13),
        is_edge(17_832, 14),
        is_edge(18_892, 15),
        is_edge(20_016, 16),
        is_edge(21_206, 17),
        is_edge(22_467, 18),
        is_edge(23_803, 19),
        is_edge(25_218, 20),
        is_edge(26_718, 21),
        is_edge(28_306, 22),
        is_edge(29_989, 23),
        is_edge(31_773, 24),
        is_edge(33_662, 25),
        is_edge(35_664, 26),
        is_edge(37_784, 27),
        is_edge(40_031, 28),
        is_edge(42_411, 29),
        is_edge(44_933, 30),
        is_edge(47_605, 31),
        is_edge(50_436, 32),
        is_edge(53_435, 33),
        is_edge(56_612, 34),
        is_edge(59_978, 35),
        is_edge(63_545, 36),
        is_edge(67_323, 37),
        is_edge(71_327, 38),
        is_edge(75_568, 39),
        is_edge(80_061, 40),
        is_edge(84_822, 41),
        is_edge(89_866, 42),
        is_edge(95_210, 43),
        is_edge(100_871, 44),
        is_edge(106_869, 45),
        is_edge(113_224, 46),
        is_edge(119_956, 47),
        is_edge(127_089, 48),
        is_edge(134_646, 49),
        is_edge(142_653, 50),
        is_edge(151_135, 51),
        is_edge(160_122, 52),
        is_edge(169_644, 53),
        is_edge(179_731, 54),
        is_edge(190_419, 55),
        is_edge(201_741, 56),
        is_edge(213_738, 57),
        is_edge(226_447, 58),
        is_edge(239_912, 59),
        is_edge(254_178, 60),
        is_edge(269_292, 61),
        is_edge(285_305, 62),
        is_edge(302_270, 63),
        is_edge(320_244, 64),
        is_edge(339_287, 65),
        is_edge(359_462, 66),
        is_edge(380_837, 67),
        is_edge(403_482, 68),
        is_edge(427_475, 69),
        is_edge(452_893, 70),
        is_edge(479_824, 71),
        is_edge(508_356, 72),
        is_edge(538_584, 73),
        is_edge(570_610, 74),
        is_edge(604_540, 75),
        is_edge(640_488, 76),
        is_edge(678_573, 77),
        is_edge(718_923, 78),
        is_edge(761_673, 79),
        is_edge(806_964, 80),
        is_edge(854_949, 81),
        is_edge(905_786, 82),
        is_edge(959_647, 83),
        is_edge(1_016_711, 84),
        is_edge(1_077_168, 85),
        is_edge(1_141_219, 86),
        is_edge(1_209_080, 87),
        is_edge(1_280_975, 88),
        is_edge(1_357_146, 89),
        is_edge(1_437_846, 90),
        is_edge(1_523_345, 91),
        is_edge(1_613_928, 92),
        is_edge(1_709_897, 93),
        is_edge(1_811_572, 94),
        is_edge(1_919_294, 95),
        is_edge(2_033_421, 96),
        is_edge(2_154_335, 97),
        is_edge(2_282_438, 98),
        is_edge(2_418_159, 99),
        is_edge(2_561_950, 100),
        is_edge(2_714_292, 101),
        is_edge(2_875_692, 102),
        is_edge(3_046_689, 103),
        is_edge(3_227_855, 104),
        is_edge(3_419_793, 105),
        is_edge(3_623_144, 106),
        is_edge(3_838_588, 107),
        is_edge(4_066_842, 108),
        is_edge(4_308_669, 109),
        is_edge(4_564_876, 110),
        is_edge(4_836_317, 111),
        is_edge(5_123_900, 112),
        is_edge(5_428_583, 113),
        is_edge(5_751_383, 114),
        is_edge(6_093_378, 115),
        is_edge(6_455_709, 116),
        is_edge(6_839_585, 117),
        is_edge(7_246_288, 118),
        is_edge(7_677_175, 119),
        is_edge(8_133_683, 120),
        is_edge(8_617_337, 121),
        is_edge(9_129_751, 122),
        is_edge(9_672_634, 123),
        is_edge(10_247_799, 124),
        is_edge(10_857_165, 125),
        is_edge(11_502_765, 126),
        is_edge(12_186_755, 127),
{
    lemma_edges_1_to_16();
    lemma_edges_17_to_32();
    lemma_edges_33_to_48();
    lemma_edges_49_to_64();
    lemma_edges_65_to_80();
    lemma_edges_81_to_96();
    lemma_edges_97_to_112();
    lemma_edges_113_to_127();
}

/// The lower edge of note `n`, in millihertz, rounded up.
fn lower_edge(n: u8) -> (r: u64)
    requires
        1 <= n <= 127,
    ensures
        is_edge(r as int, n as nat),
        r >= 1,
{
    proof {
        lemma_edges();
    }
    match n {
        1 => 8_416,
        2 => 8_916,
        3 => 9_446,
        4 => 10_008,
        5 => 10_603,
        6 => 11_234,
        7 => 11_902,
        8 => 12_609,
        9 => 13_359,
        10 => 14_153,
        11 => 14_995,
        12 => 15_887,
        13 => 16_831,
        14 => 17_832,
        15 => 18_892,
        16 => 20_016,
        17 => 21_206,
        18 => 22_467,
        19 => 23_803,
        20 => 25_218,
        21 => 26_718,
        22 => 28_306,
        23 => 29_989,
        24 => 31_773,
        25 => 33_662,
        26 => 35_664,
        27 => 37_784,
        28 => 40_031,
        29 => 42_411,
        30 => 44_933,
        31 => 47_605,
        32 => 50_436,
        33 => 53_435,
        34 => 56_612,
        35 => 59_978,
        36 => 63_545,
        37 => 67_323,
        38 => 71_327,
        39 => 75_568,
        40 => 80_061,
        41 => 84_822,
        42 => 89_866,
        43 => 95_210,
        44 => 100_871,
        45 => 106_869,
        46 => 113_224,
        47 => 119_956,
        48 => 127_089,
        49 => 134_646,
        50 => 142_653,
        51 => 151_135,
        52 => 160_122,
        53 => 169_644,
        54 => 179_731,
        55 => 190_419,
        56 => 201_741,
        57 => 213_738,
        58 => 226_447,
        59 => 239_912,
        60 => 254_178,
        61 => 269_292,
        62 => 285_305,
        63 => 302_270,
        64 => 320_244,
        65 => 339_287,
        66 => 359_462,
        67 => 380_837,
        68 => 403_482,
        69 => 427_475,
        70 => 452_893,
        71 => 479_824,
        72 => 508_356,
        73 => 538_584,
        74 => 570_610,
        75 => 604_540,
        76 => 640_488,
        77 => 678_573,
        78 => 718_923,
        79 => 761_673,
        80 => 806_964,
        81 => 854_949,
        82 => 905_786,
        83 => 959_647,
        84 => 1_016_711,
        85 => 1_077_168,
        86 => 1_141_219,
        87 => 1_209_080,
        88 => 1_280_975,
        89 => 1_357_146,
        90 => 1_437_846,
        91 => 1_523_345,
        92 => 1_613_928,
        93 => 1_709_897,
        94 => 1_811_572,
        95 => 1_919_294,
        96 => 2_033_421,
        97 => 2_154_335,
        98 => 2_282_438,
        99 => 2_418_159,
        100 => 2_561_950,
        101 => 2_714_292,
        102 => 2_875_692,
        103 => 3_046_689,
        104 => 3_227_855,
        105 => 3_419_793,
        106 => 3_623_144,
        107 => 3_838_588,
        108 => 4_066_842,
        109 => 4_308_669,
        110 => 4_564_876,
        111 => 4_836_317,
        112 => 5_123_900,
        113 => 5_428_583,
        114 => 5_751_383,
        115 => 6_093_378,
        116 => 6_455_709,
        117 => 6_839_585,
        118 => 7_246_288,
        119 => 7_677_175,
        120 => 8_133_683,
        121 => 8_617_337,
        122 => 9_129_751,
        123 => 9_672_634,
        124 => 10_247_799,
        125 => 10_857_165,
        126 => 11_502_765,
        _ => 12_186_755,
    }
}

/// 0 <= a <= b and 0 <= c <= d give a * c <= b * d.
proof fn lemma_mul_le(a: int, b: int, c: int, d: int)
    requires
        0 <= a <= b,
        0 <= c <= d,
    ensures
        0 <= a * c <= b * d,
{
    assert(0 <= a * c <= b * c) by (nonlinear_arith)
        requires
            0 <= a <= b,
            0 <= c,
    ;
    assert(b * c <= b * d) by (nonlinear_arith)
        requires
            0 <= b,
            c <= d,
    ;
}

/// Raising to the 24th power is monotone on the non-negative integers.
proof fn lemma_pow24_le(a: int, b: int)
    requires
        0 <= a <= b,
    ensures
        0 <= pow24(a) <= pow24(b),
{
    lemma_mul_le(a, b, a, b);
    lemma_mul_le(a * a, b * b, a, b);
    let (ca, cb) = (a * a * a, b * b * b);
    lemma_mul_le(ca, cb, ca, cb);
    lemma_mul_le(ca * ca, cb * cb, ca * ca, cb * cb);
    let (qa, qb) = (ca * ca * (ca * ca), cb * cb * (cb * cb));
    lemma_mul_le(qa, qb, qa, qb);
}

/// A frequency reaches a note's lower edge exactly when it is at least that
/// edge, rounded up to the millihertz.
proof fn lemma_reaches_edge(f: int, e: int, n: nat)
    requires
        0 <= f,
        1 <= e,
        is_edge(e, n),
    ensures
        at_or_above(f, n) == (e <= f),
{
    let k = two_139();
    let rhs = pow24(440000) * pow4(n);
    if e <= f {
        lemma_pow24_le(e, f);
        assert(pow24(e) * k <= pow24(f) * k) by (nonlinear_arith)
            requires
                pow24(e) <= pow24(f),
                0 <= k,
        ;
    } else {
        lemma_pow24_le(f, e - 1);
        assert(pow24(f) * k <= pow24(e - 1) * k) by (nonlinear_arith)
            requires
                pow24(f) <= pow24(e - 1),
                0 <= k,
        ;
    }
}

/// The highest note from 1 to `n` whose lower edge `f` reaches, or 0.
pub open spec fn highest_reached(f: int, n: nat) -> nat
    decreases n,
{
    if n == 0 {
        0
    } else if at_or_above(f, n) {
        n
    } else {
        highest_reached(f, (n - 1) as nat)
    }
}

/// The MIDI note number of a frequency of `f` millihertz:
/// round(12 * log2(f / 440 Hz) + 69), held to 0..=127. Frequencies below
/// the lower edge of note 1, zero among them, give 0.
pub open spec fn key_of(f: int) -> nat {
    highest_reached(f, 127)
}

/// Quantizes a frequency in millihertz to the nearest MIDI note number.
pub fn freq_to_midi_note(freq: u64) -> (r: u8)
    ensures
        r as nat == key_of(freq as int),
        r <= 127,
{
    let mut n: u8 = 127;
    while n >= 1
        invariant
            n <= 127,
            highest_reached(freq as int, n as nat) == key_of(freq as int),
        decreases n,
    {
        let e = lower_edge(n);
        proof {
            lemma_reaches_edge(freq as int, e as int, n as nat);
        }
        if e <= freq {
            return n;
        }
        n = n - 1;
    }
    0
}

} // verus!
