//! The two-letter codes of the table, read letter by letter.

use vstd::prelude::*;
use crate::overview::{code_1_at, two_letter_slot_at};
use crate::table::LANGUAGE_COUNT;
use crate::text::{all_lower_letters, two_letter_slot};

verus! {

/// Every two-letter code of the table is empty or two letters `a` to `z`, and
/// the slot of a code that is not empty holds the place of its record.
pub proof fn lemma_two_letter_codes()
    ensures
        forall|i: int|
            0 <= i < LANGUAGE_COUNT ==> (#[trigger] code_1_at(i)).len() == 0 || {
                &&& code_1_at(i).len() == 2
                &&& all_lower_letters(code_1_at(i))
                &&& two_letter_slot_at(two_letter_slot(code_1_at(i))) == i + 1
            },
{
    reveal(code_1_at);
    reveal(two_letter_slot_at);
    reveal_strlit("");
    reveal_strlit("aa");
    assert(code_1_at(0) =~= seq!['a', 'a']);
    reveal_strlit("ab");
    assert(code_1_at(1) =~= seq!['a', 'b']);
    reveal_strlit("af");
    assert(code_1_at(2) =~= seq!['a', 'f']);
    reveal_strlit("ak");
    assert(code_1_at(3) =~= seq!['a', 'k']);
    reveal_strlit("am");
    assert(code_1_at(5) =~= seq!['a', 'm']);
    reveal_strlit("ar");
    assert(code_1_at(7) =~= seq!['a', 'r']);
    reveal_strlit("an");
    assert(code_1_at(10) =~= seq!['a', 'n']);
    reveal_strlit("as");
    assert(code_1_at(11) =~= seq!['a', 's']);
    reveal_strlit("av");
    assert(code_1_at(13) =~= seq!['a', 'v']);
    reveal_strlit("ae");
    assert(code_1_at(14) =~= seq!['a', 'e']);
    reveal_strlit("ay");
    assert(code_1_at(15) =~= seq!['a', 'y']);
    reveal_strlit("az");
    assert(code_1_at(16) =~= seq!['a', 'z']);
    reveal_strlit("ba");
    assert(code_1_at(17) =~= seq!['b', 'a']);
    reveal_strlit("bm");
    assert(code_1_at(18) =~= seq!['b', 'm']);
    reveal_strlit("be");
    assert(code_1_at(19) =~= seq!['b', 'e']);
    reveal_strlit("bn");
    assert(code_1_at(20) =~= seq!['b', 'n']);
    reveal_strlit("bi");
    assert(code_1_at(21) =~= seq!['b', 'i']);
    reveal_strlit("bo");
    assert(code_1_at(22) =~= seq!['b', 'o']);
    reveal_strlit("bs");
    assert(code_1_at(23) =~= seq!['b', 's']);
    reveal_strlit("br");
    assert(code_1_at(24) =~= seq!['b', 'r']);
    reveal_strlit("bg");
    assert(code_1_at(25) =~= seq!['b', 'g']);
    reveal_strlit("ca");
    assert(code_1_at(26) =~= seq!['c', 'a']);
    reveal_strlit("cs");
    assert(code_1_at(28) =~= seq!['c', 's']);
    reveal_strlit("ch");
    assert(code_1_at(29) =~= seq!['c', 'h']);
    reveal_strlit("ce");
    assert(code_1_at(30) =~= seq!['c', 'e']);
    reveal_strlit("cu");
    assert(code_1_at(32) =~= seq!['c', 'u']);
    reveal_strlit("cv");
    assert(code_1_at(33) =~= seq!['c', 'v']);
    reveal_strlit("kw");
    assert(code_1_at(36) =~= seq!['k', 'w']);
    reveal_strlit("co");
    assert(code_1_at(37) =~= seq!['c', 'o']);
    reveal_strlit("cr");
    assert(code_1_at(38) =~= seq!['c', 'r']);
    reveal_strlit("cy");
    assert(code_1_at(39) =~= seq!['c', 'y']);
    reveal_strlit("da");
    assert(code_1_at(40) =~= seq!['d', 'a']);
    reveal_strlit("de");
    assert(code_1_at(41) =~= seq!['d', 'e']);
    reveal_strlit("dv");
    assert(code_1_at(42) =~= seq!['d', 'v']);
    reveal_strlit("dz");
    assert(code_1_at(44) =~= seq!['d', 'z']);
    reveal_strlit("el");
    assert(code_1_at(47) =~= seq!['e', 'l']);
    reveal_strlit("en");
    assert(code_1_at(48) =~= seq!['e', 'n']);
    reveal_strlit("eo");
    assert(code_1_at(50) =~= seq!['e', 'o']);
    reveal_strlit("et");
    assert(code_1_at(51) =~= seq!['e', 't']);
    reveal_strlit("eu");
    assert(code_1_at(52) =~= seq!['e', 'u']);
    reveal_strlit("ee");
    assert(code_1_at(53) =~= seq!['e', 'e']);
    reveal_strlit("fo");
    assert(code_1_at(54) =~= seq!['f', 'o']);
    reveal_strlit("fa");
    assert(code_1_at(55) =~= seq!['f', 'a']);
    reveal_strlit("fj");
    assert(code_1_at(56) =~= seq!['f', 'j']);
    reveal_strlit("fi");
    assert(code_1_at(58) =~= seq!['f', 'i']);
    reveal_strlit("fr");
    assert(code_1_at(59) =~= seq!['f', 'r']);
    reveal_strlit("fy");
    assert(code_1_at(62) =~= seq!['f', 'y']);
    reveal_strlit("ff");
    assert(code_1_at(63) =~= seq!['f', 'f']);
    reveal_strlit("gd");
    assert(code_1_at(66) =~= seq!['g', 'd']);
    reveal_strlit("ga");
    assert(code_1_at(67) =~= seq!['g', 'a']);
    reveal_strlit("gl");
    assert(code_1_at(68) =~= seq!['g', 'l']);
    reveal_strlit("gv");
    assert(code_1_at(69) =~= seq!['g', 'v']);
    reveal_strlit("gn");
    assert(code_1_at(74) =~= seq!['g', 'n']);
    reveal_strlit("gu");
    assert(code_1_at(76) =~= seq!['g', 'u']);
    reveal_strlit("ht");
    assert(code_1_at(78) =~= seq!['h', 't']);
    reveal_strlit("ha");
    assert(code_1_at(79) =~= seq!['h', 'a']);
    reveal_strlit("sh");
    assert(code_1_at(81) =~= seq!['s', 'h']);
    reveal_strlit("he");
    assert(code_1_at(82) =~= seq!['h', 'e']);
    reveal_strlit("hz");
    assert(code_1_at(83) =~= seq!['h', 'z']);
    reveal_strlit("hi");
    assert(code_1_at(84) =~= seq!['h', 'i']);
    reveal_strlit("ho");
    assert(code_1_at(86) =~= seq!['h', 'o']);
    reveal_strlit("hr");
    assert(code_1_at(87) =~= seq!['h', 'r']);
    reveal_strlit("hu");
    assert(code_1_at(89) =~= seq!['h', 'u']);
    reveal_strlit("hy");
    assert(code_1_at(90) =~= seq!['h', 'y']);
    reveal_strlit("ig");
    assert(code_1_at(91) =~= seq!['i', 'g']);
    reveal_strlit("io");
    assert(code_1_at(92) =~= seq!['i', 'o']);
    reveal_strlit("ii");
    assert(code_1_at(93) =~= seq!['i', 'i']);
    reveal_strlit("iu");
    assert(code_1_at(94) =~= seq!['i', 'u']);
    reveal_strlit("ie");
    assert(code_1_at(95) =~= seq!['i', 'e']);
    reveal_strlit("ia");
    assert(code_1_at(97) =~= seq!['i', 'a']);
    reveal_strlit("id");
    assert(code_1_at(98) =~= seq!['i', 'd']);
    reveal_strlit("ik");
    assert(code_1_at(99) =~= seq!['i', 'k']);
    reveal_strlit("is");
    assert(code_1_at(100) =~= seq!['i', 's']);
    reveal_strlit("it");
    assert(code_1_at(101) =~= seq!['i', 't']);
    reveal_strlit("jv");
    assert(code_1_at(102) =~= seq!['j', 'v']);
    reveal_strlit("ja");
    assert(code_1_at(104) =~= seq!['j', 'a']);
    reveal_strlit("kl");
    assert(code_1_at(106) =~= seq!['k', 'l']);
    reveal_strlit("kn");
    assert(code_1_at(107) =~= seq!['k', 'n']);
    reveal_strlit("ks");
    assert(code_1_at(108) =~= seq!['k', 's']);
    reveal_strlit("ka");
    assert(code_1_at(109) =~= seq!['k', 'a']);
    reveal_strlit("kr");
    assert(code_1_at(110) =~= seq!['k', 'r']);
    reveal_strlit("kk");
    assert(code_1_at(111) =~= seq!['k', 'k']);
    reveal_strlit("km");
    assert(code_1_at(112) =~= seq!['k', 'm']);
    reveal_strlit("ki");
    assert(code_1_at(113) =~= seq!['k', 'i']);
    reveal_strlit("rw");
    assert(code_1_at(114) =~= seq!['r', 'w']);
    reveal_strlit("ky");
    assert(code_1_at(115) =~= seq!['k', 'y']);
    reveal_strlit("kv");
    assert(code_1_at(116) =~= seq!['k', 'v']);
    reveal_strlit("kg");
    assert(code_1_at(117) =~= seq!['k', 'g']);
    reveal_strlit("ko");
    assert(code_1_at(118) =~= seq!['k', 'o']);
    reveal_strlit("kj");
    assert(code_1_at(119) =~= seq!['k', 'j']);
    reveal_strlit("ku");
    assert(code_1_at(120) =~= seq!['k', 'u']);
    reveal_strlit("lo");
    assert(code_1_at(121) =~= seq!['l', 'o']);
    reveal_strlit("la");
    assert(code_1_at(122) =~= seq!['l', 'a']);
    reveal_strlit("lv");
    assert(code_1_at(123) =~= seq!['l', 'v']);
    reveal_strlit("li");
    assert(code_1_at(124) =~= seq!['l', 'i']);
    reveal_strlit("ln");
    assert(code_1_at(125) =~= seq!['l', 'n']);
    reveal_strlit("lt");
    assert(code_1_at(126) =~= seq!['l', 't']);
    reveal_strlit("lb");
    assert(code_1_at(127) =~= seq!['l', 'b']);
    reveal_strlit("lu");
    assert(code_1_at(128) =~= seq!['l', 'u']);
    reveal_strlit("lg");
    assert(code_1_at(129) =~= seq!['l', 'g']);
    reveal_strlit("mh");
    assert(code_1_at(132) =~= seq!['m', 'h']);
    reveal_strlit("ml");
    assert(code_1_at(133) =~= seq!['m', 'l']);
    reveal_strlit("mr");
    assert(code_1_at(134) =~= seq!['m', 'r']);
    reveal_strlit("mk");
    assert(code_1_at(137) =~= seq!['m', 'k']);
    reveal_strlit("mg");
    assert(code_1_at(138) =~= seq!['m', 'g']);
    reveal_strlit("mt");
    assert(code_1_at(139) =~= seq!['m', 't']);
    reveal_strlit("mn");
    assert(code_1_at(140) =~= seq!['m', 'n']);
    reveal_strlit("mi");
    assert(code_1_at(141) =~= seq!['m', 'i']);
    reveal_strlit("ms");
    assert(code_1_at(142) =~= seq!['m', 's']);
    reveal_strlit("my");
    assert(code_1_at(144) =~= seq!['m', 'y']);
    reveal_strlit("na");
    assert(code_1_at(146) =~= seq!['n', 'a']);
    reveal_strlit("nv");
    assert(code_1_at(147) =~= seq!['n', 'v']);
    reveal_strlit("nr");
    assert(code_1_at(148) =~= seq!['n', 'r']);
    reveal_strlit("nd");
    assert(code_1_at(149) =~= seq!['n', 'd']);
    reveal_strlit("ng");
    assert(code_1_at(150) =~= seq!['n', 'g']);
    reveal_strlit("ne");
    assert(code_1_at(152) =~= seq!['n', 'e']);
    reveal_strlit("nl");
    assert(code_1_at(153) =~= seq!['n', 'l']);
    reveal_strlit("nn");
    assert(code_1_at(154) =~= seq!['n', 'n']);
    reveal_strlit("nb");
    assert(code_1_at(155) =~= seq!['n', 'b']);
    reveal_strlit("no");
    assert(code_1_at(157) =~= seq!['n', 'o']);
    reveal_strlit("ny");
    assert(code_1_at(158) =~= seq!['n', 'y']);
    reveal_strlit("oc");
    assert(code_1_at(159) =~= seq!['o', 'c']);
    reveal_strlit("oj");
    assert(code_1_at(160) =~= seq!['o', 'j']);
    reveal_strlit("or");
    assert(code_1_at(161) =~= seq!['o', 'r']);
    reveal_strlit("om");
    assert(code_1_at(162) =~= seq!['o', 'm']);
    reveal_strlit("os");
    assert(code_1_at(163) =~= seq!['o', 's']);
    reveal_strlit("pa");
    assert(code_1_at(166) =~= seq!['p', 'a']);
    reveal_strlit("pi");
    assert(code_1_at(169) =~= seq!['p', 'i']);
    reveal_strlit("pl");
    assert(code_1_at(170) =~= seq!['p', 'l']);
    reveal_strlit("pt");
    assert(code_1_at(171) =~= seq!['p', 't']);
    reveal_strlit("ps");
    assert(code_1_at(172) =~= seq!['p', 's']);
    reveal_strlit("qu");
    assert(code_1_at(173) =~= seq!['q', 'u']);
    reveal_strlit("rm");
    assert(code_1_at(174) =~= seq!['r', 'm']);
    reveal_strlit("ro");
    assert(code_1_at(175) =~= seq!['r', 'o']);
    reveal_strlit("rn");
    assert(code_1_at(176) =~= seq!['r', 'n']);
    reveal_strlit("ru");
    assert(code_1_at(177) =~= seq!['r', 'u']);
    reveal_strlit("sg");
    assert(code_1_at(178) =~= seq!['s', 'g']);
    reveal_strlit("sa");
    assert(code_1_at(179) =~= seq!['s', 'a']);
    reveal_strlit("si");
    assert(code_1_at(183) =~= seq!['s', 'i']);
    reveal_strlit("sk");
    assert(code_1_at(184) =~= seq!['s', 'k']);
    reveal_strlit("sl");
    assert(code_1_at(185) =~= seq!['s', 'l']);
    reveal_strlit("se");
    assert(code_1_at(186) =~= seq!['s', 'e']);
    reveal_strlit("sm");
    assert(code_1_at(187) =~= seq!['s', 'm']);
    reveal_strlit("sn");
    assert(code_1_at(188) =~= seq!['s', 'n']);
    reveal_strlit("sd");
    assert(code_1_at(189) =~= seq!['s', 'd']);
    reveal_strlit("so");
    assert(code_1_at(190) =~= seq!['s', 'o']);
    reveal_strlit("st");
    assert(code_1_at(191) =~= seq!['s', 't']);
    reveal_strlit("es");
    assert(code_1_at(192) =~= seq!['e', 's']);
    reveal_strlit("sq");
    assert(code_1_at(193) =~= seq!['s', 'q']);
    reveal_strlit("sc");
    assert(code_1_at(194) =~= seq!['s', 'c']);
    reveal_strlit("sr");
    assert(code_1_at(195) =~= seq!['s', 'r']);
    reveal_strlit("ss");
    assert(code_1_at(196) =~= seq!['s', 's']);
    reveal_strlit("su");
    assert(code_1_at(197) =~= seq!['s', 'u']);
    reveal_strlit("sw");
    assert(code_1_at(199) =~= seq!['s', 'w']);
    reveal_strlit("sv");
    assert(code_1_at(200) =~= seq!['s', 'v']);
    reveal_strlit("ty");
    assert(code_1_at(202) =~= seq!['t', 'y']);
    reveal_strlit("ta");
    assert(code_1_at(203) =~= seq!['t', 'a']);
    reveal_strlit("tt");
    assert(code_1_at(204) =~= seq!['t', 't']);
    reveal_strlit("te");
    assert(code_1_at(205) =~= seq!['t', 'e']);
    reveal_strlit("tg");
    assert(code_1_at(206) =~= seq!['t', 'g']);
    reveal_strlit("tl");
    assert(code_1_at(207) =~= seq!['t', 'l']);
    reveal_strlit("th");
    assert(code_1_at(208) =~= seq!['t', 'h']);
    reveal_strlit("ti");
    assert(code_1_at(209) =~= seq!['t', 'i']);
    reveal_strlit("to");
    assert(code_1_at(211) =~= seq!['t', 'o']);
    reveal_strlit("tn");
    assert(code_1_at(212) =~= seq!['t', 'n']);
    reveal_strlit("ts");
    assert(code_1_at(213) =~= seq!['t', 's']);
    reveal_strlit("tk");
    assert(code_1_at(214) =~= seq!['t', 'k']);
    reveal_strlit("tr");
    assert(code_1_at(215) =~= seq!['t', 'r']);
    reveal_strlit("tw");
    assert(code_1_at(216) =~= seq!['t', 'w']);
    reveal_strlit("ug");
    assert(code_1_at(217) =~= seq!['u', 'g']);
    reveal_strlit("uk");
    assert(code_1_at(218) =~= seq!['u', 'k']);
    reveal_strlit("ur");
    assert(code_1_at(220) =~= seq!['u', 'r']);
    reveal_strlit("uz");
    assert(code_1_at(221) =~= seq!['u', 'z']);
    reveal_strlit("ve");
    assert(code_1_at(223) =~= seq!['v', 'e']);
    reveal_strlit("vi");
    assert(code_1_at(224) =~= seq!['v', 'i']);
    reveal_strlit("vo");
    assert(code_1_at(225) =~= seq!['v', 'o']);
    reveal_strlit("wa");
    assert(code_1_at(227) =~= seq!['w', 'a']);
    reveal_strlit("wo");
    assert(code_1_at(228) =~= seq!['w', 'o']);
    reveal_strlit("xh");
    assert(code_1_at(230) =~= seq!['x', 'h']);
    reveal_strlit("yi");
    assert(code_1_at(231) =~= seq!['y', 'i']);
    reveal_strlit("yo");
    assert(code_1_at(232) =~= seq!['y', 'o']);
    reveal_strlit("za");
    assert(code_1_at(234) =~= seq!['z', 'a']);
    reveal_strlit("zh");
    assert(code_1_at(235) =~= seq!['z', 'h']);
    reveal_strlit("zu");
    assert(code_1_at(236) =~= seq!['z', 'u']);
}

} // verus!
