//! The three-letter codes of the table, read letter by letter.

use vstd::prelude::*;
use crate::overview::code_3_at;
use crate::table::LANGUAGE_COUNT;
use crate::text::{all_lower_letters, code_key};

verus! {

/// Every three-letter code of the table is three letters `a` to `z`, and the
/// codes stand in strictly increasing order.
pub proof fn lemma_three_letter_codes()
    ensures
        forall|i: int|
            0 <= i < LANGUAGE_COUNT ==> (#[trigger] code_3_at(i)).len() == 3 && all_lower_letters(
                code_3_at(i),
            ),
        forall|i: int|
            0 <= i < LANGUAGE_COUNT - 1 ==> code_key(#[trigger] code_3_at(i)) < code_key(
                code_3_at(i + 1),
            ),
{
    reveal(code_3_at);
    reveal_strlit("aar");
    assert(code_3_at(0) =~= seq!['a', 'a', 'r']);
    reveal_strlit("abk");
    assert(code_3_at(1) =~= seq!['a', 'b', 'k']);
    reveal_strlit("afr");
    assert(code_3_at(2) =~= seq!['a', 'f', 'r']);
    reveal_strlit("aka");
    assert(code_3_at(3) =~= seq!['a', 'k', 'a']);
    reveal_strlit("akk");
    assert(code_3_at(4) =~= seq!['a', 'k', 'k']);
    reveal_strlit("amh");
    assert(code_3_at(5) =~= seq!['a', 'm', 'h']);
    reveal_strlit("ang");
    assert(code_3_at(6) =~= seq!['a', 'n', 'g']);
    reveal_strlit("ara");
    assert(code_3_at(7) =~= seq!['a', 'r', 'a']);
    reveal_strlit("arb");
    assert(code_3_at(8) =~= seq!['a', 'r', 'b']);
    reveal_strlit("arc");
    assert(code_3_at(9) =~= seq!['a', 'r', 'c']);
    reveal_strlit("arg");
    assert(code_3_at(10) =~= seq!['a', 'r', 'g']);
    reveal_strlit("asm");
    assert(code_3_at(11) =~= seq!['a', 's', 'm']);
    reveal_strlit("ast");
    assert(code_3_at(12) =~= seq!['a', 's', 't']);
    reveal_strlit("ava");
    assert(code_3_at(13) =~= seq!['a', 'v', 'a']);
    reveal_strlit("ave");
    assert(code_3_at(14) =~= seq!['a', 'v', 'e']);
    reveal_strlit("aym");
    assert(code_3_at(15) =~= seq!['a', 'y', 'm']);
    reveal_strlit("aze");
    assert(code_3_at(16) =~= seq!['a', 'z', 'e']);
    reveal_strlit("bak");
    assert(code_3_at(17) =~= seq!['b', 'a', 'k']);
    reveal_strlit("bam");
    assert(code_3_at(18) =~= seq!['b', 'a', 'm']);
    reveal_strlit("bel");
    assert(code_3_at(19) =~= seq!['b', 'e', 'l']);
    reveal_strlit("ben");
    assert(code_3_at(20) =~= seq!['b', 'e', 'n']);
    reveal_strlit("bis");
    assert(code_3_at(21) =~= seq!['b', 'i', 's']);
    reveal_strlit("bod");
    assert(code_3_at(22) =~= seq!['b', 'o', 'd']);
    reveal_strlit("bos");
    assert(code_3_at(23) =~= seq!['b', 'o', 's']);
    reveal_strlit("bre");
    assert(code_3_at(24) =~= seq!['b', 'r', 'e']);
    reveal_strlit("bul");
    assert(code_3_at(25) =~= seq!['b', 'u', 'l']);
    reveal_strlit("cat");
    assert(code_3_at(26) =~= seq!['c', 'a', 't']);
    reveal_strlit("ceb");
    assert(code_3_at(27) =~= seq!['c', 'e', 'b']);
    reveal_strlit("ces");
    assert(code_3_at(28) =~= seq!['c', 'e', 's']);
    reveal_strlit("cha");
    assert(code_3_at(29) =~= seq!['c', 'h', 'a']);
    reveal_strlit("che");
    assert(code_3_at(30) =~= seq!['c', 'h', 'e']);
    reveal_strlit("chr");
    assert(code_3_at(31) =~= seq!['c', 'h', 'r']);
    reveal_strlit("chu");
    assert(code_3_at(32) =~= seq!['c', 'h', 'u']);
    reveal_strlit("chv");
    assert(code_3_at(33) =~= seq!['c', 'h', 'v']);
    reveal_strlit("cmn");
    assert(code_3_at(34) =~= seq!['c', 'm', 'n']);
    reveal_strlit("cop");
    assert(code_3_at(35) =~= seq!['c', 'o', 'p']);
    reveal_strlit("cor");
    assert(code_3_at(36) =~= seq!['c', 'o', 'r']);
    reveal_strlit("cos");
    assert(code_3_at(37) =~= seq!['c', 'o', 's']);
    reveal_strlit("cre");
    assert(code_3_at(38) =~= seq!['c', 'r', 'e']);
    reveal_strlit("cym");
    assert(code_3_at(39) =~= seq!['c', 'y', 'm']);
    reveal_strlit("dan");
    assert(code_3_at(40) =~= seq!['d', 'a', 'n']);
    reveal_strlit("deu");
    assert(code_3_at(41) =~= seq!['d', 'e', 'u']);
    reveal_strlit("div");
    assert(code_3_at(42) =~= seq!['d', 'i', 'v']);
    reveal_strlit("dsb");
    assert(code_3_at(43) =~= seq!['d', 's', 'b']);
    reveal_strlit("dzo");
    assert(code_3_at(44) =~= seq!['d', 'z', 'o']);
    reveal_strlit("egy");
    assert(code_3_at(45) =~= seq!['e', 'g', 'y']);
    reveal_strlit("ekk");
    assert(code_3_at(46) =~= seq!['e', 'k', 'k']);
    reveal_strlit("ell");
    assert(code_3_at(47) =~= seq!['e', 'l', 'l']);
    reveal_strlit("eng");
    assert(code_3_at(48) =~= seq!['e', 'n', 'g']);
    reveal_strlit("enm");
    assert(code_3_at(49) =~= seq!['e', 'n', 'm']);
    reveal_strlit("epo");
    assert(code_3_at(50) =~= seq!['e', 'p', 'o']);
    reveal_strlit("est");
    assert(code_3_at(51) =~= seq!['e', 's', 't']);
    reveal_strlit("eus");
    assert(code_3_at(52) =~= seq!['e', 'u', 's']);
    reveal_strlit("ewe");
    assert(code_3_at(53) =~= seq!['e', 'w', 'e']);
    reveal_strlit("fao");
    assert(code_3_at(54) =~= seq!['f', 'a', 'o']);
    reveal_strlit("fas");
    assert(code_3_at(55) =~= seq!['f', 'a', 's']);
    reveal_strlit("fij");
    assert(code_3_at(56) =~= seq!['f', 'i', 'j']);
    reveal_strlit("fil");
    assert(code_3_at(57) =~= seq!['f', 'i', 'l']);
    reveal_strlit("fin");
    assert(code_3_at(58) =~= seq!['f', 'i', 'n']);
    reveal_strlit("fra");
    assert(code_3_at(59) =~= seq!['f', 'r', 'a']);
    reveal_strlit("frm");
    assert(code_3_at(60) =~= seq!['f', 'r', 'm']);
    reveal_strlit("fro");
    assert(code_3_at(61) =~= seq!['f', 'r', 'o']);
    reveal_strlit("fry");
    assert(code_3_at(62) =~= seq!['f', 'r', 'y']);
    reveal_strlit("ful");
    assert(code_3_at(63) =~= seq!['f', 'u', 'l']);
    reveal_strlit("fur");
    assert(code_3_at(64) =~= seq!['f', 'u', 'r']);
    reveal_strlit("gha");
    assert(code_3_at(65) =~= seq!['g', 'h', 'a']);
    reveal_strlit("gla");
    assert(code_3_at(66) =~= seq!['g', 'l', 'a']);
    reveal_strlit("gle");
    assert(code_3_at(67) =~= seq!['g', 'l', 'e']);
    reveal_strlit("glg");
    assert(code_3_at(68) =~= seq!['g', 'l', 'g']);
    reveal_strlit("glv");
    assert(code_3_at(69) =~= seq!['g', 'l', 'v']);
    reveal_strlit("gmh");
    assert(code_3_at(70) =~= seq!['g', 'm', 'h']);
    reveal_strlit("goh");
    assert(code_3_at(71) =~= seq!['g', 'o', 'h']);
    reveal_strlit("got");
    assert(code_3_at(72) =~= seq!['g', 'o', 't']);
    reveal_strlit("grc");
    assert(code_3_at(73) =~= seq!['g', 'r', 'c']);
    reveal_strlit("grn");
    assert(code_3_at(74) =~= seq!['g', 'r', 'n']);
    reveal_strlit("gsw");
    assert(code_3_at(75) =~= seq!['g', 's', 'w']);
    reveal_strlit("guj");
    assert(code_3_at(76) =~= seq!['g', 'u', 'j']);
    reveal_strlit("hak");
    assert(code_3_at(77) =~= seq!['h', 'a', 'k']);
    reveal_strlit("hat");
    assert(code_3_at(78) =~= seq!['h', 'a', 't']);
    reveal_strlit("hau");
    assert(code_3_at(79) =~= seq!['h', 'a', 'u']);
    reveal_strlit("haw");
    assert(code_3_at(80) =~= seq!['h', 'a', 'w']);
    reveal_strlit("hbs");
    assert(code_3_at(81) =~= seq!['h', 'b', 's']);
    reveal_strlit("heb");
    assert(code_3_at(82) =~= seq!['h', 'e', 'b']);
    reveal_strlit("her");
    assert(code_3_at(83) =~= seq!['h', 'e', 'r']);
    reveal_strlit("hin");
    assert(code_3_at(84) =~= seq!['h', 'i', 'n']);
    reveal_strlit("hit");
    assert(code_3_at(85) =~= seq!['h', 'i', 't']);
    reveal_strlit("hmo");
    assert(code_3_at(86) =~= seq!['h', 'm', 'o']);
    reveal_strlit("hrv");
    assert(code_3_at(87) =~= seq!['h', 'r', 'v']);
    reveal_strlit("hsb");
    assert(code_3_at(88) =~= seq!['h', 's', 'b']);
    reveal_strlit("hun");
    assert(code_3_at(89) =~= seq!['h', 'u', 'n']);
    reveal_strlit("hye");
    assert(code_3_at(90) =~= seq!['h', 'y', 'e']);
    reveal_strlit("ibo");
    assert(code_3_at(91) =~= seq!['i', 'b', 'o']);
    reveal_strlit("ido");
    assert(code_3_at(92) =~= seq!['i', 'd', 'o']);
    reveal_strlit("iii");
    assert(code_3_at(93) =~= seq!['i', 'i', 'i']);
    reveal_strlit("iku");
    assert(code_3_at(94) =~= seq!['i', 'k', 'u']);
    reveal_strlit("ile");
    assert(code_3_at(95) =~= seq!['i', 'l', 'e']);
    reveal_strlit("ilo");
    assert(code_3_at(96) =~= seq!['i', 'l', 'o']);
    reveal_strlit("ina");
    assert(code_3_at(97) =~= seq!['i', 'n', 'a']);
    reveal_strlit("ind");
    assert(code_3_at(98) =~= seq!['i', 'n', 'd']);
    reveal_strlit("ipk");
    assert(code_3_at(99) =~= seq!['i', 'p', 'k']);
    reveal_strlit("isl");
    assert(code_3_at(100) =~= seq!['i', 's', 'l']);
    reveal_strlit("ita");
    assert(code_3_at(101) =~= seq!['i', 't', 'a']);
    reveal_strlit("jav");
    assert(code_3_at(102) =~= seq!['j', 'a', 'v']);
    reveal_strlit("jbo");
    assert(code_3_at(103) =~= seq!['j', 'b', 'o']);
    reveal_strlit("jpn");
    assert(code_3_at(104) =~= seq!['j', 'p', 'n']);
    reveal_strlit("kab");
    assert(code_3_at(105) =~= seq!['k', 'a', 'b']);
    reveal_strlit("kal");
    assert(code_3_at(106) =~= seq!['k', 'a', 'l']);
    reveal_strlit("kan");
    assert(code_3_at(107) =~= seq!['k', 'a', 'n']);
    reveal_strlit("kas");
    assert(code_3_at(108) =~= seq!['k', 'a', 's']);
    reveal_strlit("kat");
    assert(code_3_at(109) =~= seq!['k', 'a', 't']);
    reveal_strlit("kau");
    assert(code_3_at(110) =~= seq!['k', 'a', 'u']);
    reveal_strlit("kaz");
    assert(code_3_at(111) =~= seq!['k', 'a', 'z']);
    reveal_strlit("khm");
    assert(code_3_at(112) =~= seq!['k', 'h', 'm']);
    reveal_strlit("kik");
    assert(code_3_at(113) =~= seq!['k', 'i', 'k']);
    reveal_strlit("kin");
    assert(code_3_at(114) =~= seq!['k', 'i', 'n']);
    reveal_strlit("kir");
    assert(code_3_at(115) =~= seq!['k', 'i', 'r']);
    reveal_strlit("kom");
    assert(code_3_at(116) =~= seq!['k', 'o', 'm']);
    reveal_strlit("kon");
    assert(code_3_at(117) =~= seq!['k', 'o', 'n']);
    reveal_strlit("kor");
    assert(code_3_at(118) =~= seq!['k', 'o', 'r']);
    reveal_strlit("kua");
    assert(code_3_at(119) =~= seq!['k', 'u', 'a']);
    reveal_strlit("kur");
    assert(code_3_at(120) =~= seq!['k', 'u', 'r']);
    reveal_strlit("lao");
    assert(code_3_at(121) =~= seq!['l', 'a', 'o']);
    reveal_strlit("lat");
    assert(code_3_at(122) =~= seq!['l', 'a', 't']);
    reveal_strlit("lav");
    assert(code_3_at(123) =~= seq!['l', 'a', 'v']);
    reveal_strlit("lim");
    assert(code_3_at(124) =~= seq!['l', 'i', 'm']);
    reveal_strlit("lin");
    assert(code_3_at(125) =~= seq!['l', 'i', 'n']);
    reveal_strlit("lit");
    assert(code_3_at(126) =~= seq!['l', 'i', 't']);
    reveal_strlit("ltz");
    assert(code_3_at(127) =~= seq!['l', 't', 'z']);
    reveal_strlit("lub");
    assert(code_3_at(128) =~= seq!['l', 'u', 'b']);
    reveal_strlit("lug");
    assert(code_3_at(129) =~= seq!['l', 'u', 'g']);
    reveal_strlit("lvs");
    assert(code_3_at(130) =~= seq!['l', 'v', 's']);
    reveal_strlit("lzh");
    assert(code_3_at(131) =~= seq!['l', 'z', 'h']);
    reveal_strlit("mah");
    assert(code_3_at(132) =~= seq!['m', 'a', 'h']);
    reveal_strlit("mal");
    assert(code_3_at(133) =~= seq!['m', 'a', 'l']);
    reveal_strlit("mar");
    assert(code_3_at(134) =~= seq!['m', 'a', 'r']);
    reveal_strlit("mga");
    assert(code_3_at(135) =~= seq!['m', 'g', 'a']);
    reveal_strlit("mis");
    assert(code_3_at(136) =~= seq!['m', 'i', 's']);
    reveal_strlit("mkd");
    assert(code_3_at(137) =~= seq!['m', 'k', 'd']);
    reveal_strlit("mlg");
    assert(code_3_at(138) =~= seq!['m', 'l', 'g']);
    reveal_strlit("mlt");
    assert(code_3_at(139) =~= seq!['m', 'l', 't']);
    reveal_strlit("mon");
    assert(code_3_at(140) =~= seq!['m', 'o', 'n']);
    reveal_strlit("mri");
    assert(code_3_at(141) =~= seq!['m', 'r', 'i']);
    reveal_strlit("msa");
    assert(code_3_at(142) =~= seq!['m', 's', 'a']);
    reveal_strlit("mul");
    assert(code_3_at(143) =~= seq!['m', 'u', 'l']);
    reveal_strlit("mya");
    assert(code_3_at(144) =~= seq!['m', 'y', 'a']);
    reveal_strlit("nan");
    assert(code_3_at(145) =~= seq!['n', 'a', 'n']);
    reveal_strlit("nau");
    assert(code_3_at(146) =~= seq!['n', 'a', 'u']);
    reveal_strlit("nav");
    assert(code_3_at(147) =~= seq!['n', 'a', 'v']);
    reveal_strlit("nbl");
    assert(code_3_at(148) =~= seq!['n', 'b', 'l']);
    reveal_strlit("nde");
    assert(code_3_at(149) =~= seq!['n', 'd', 'e']);
    reveal_strlit("ndo");
    assert(code_3_at(150) =~= seq!['n', 'd', 'o']);
    reveal_strlit("nds");
    assert(code_3_at(151) =~= seq!['n', 'd', 's']);
    reveal_strlit("nep");
    assert(code_3_at(152) =~= seq!['n', 'e', 'p']);
    reveal_strlit("nld");
    assert(code_3_at(153) =~= seq!['n', 'l', 'd']);
    reveal_strlit("nno");
    assert(code_3_at(154) =~= seq!['n', 'n', 'o']);
    reveal_strlit("nob");
    assert(code_3_at(155) =~= seq!['n', 'o', 'b']);
    reveal_strlit("non");
    assert(code_3_at(156) =~= seq!['n', 'o', 'n']);
    reveal_strlit("nor");
    assert(code_3_at(157) =~= seq!['n', 'o', 'r']);
    reveal_strlit("nya");
    assert(code_3_at(158) =~= seq!['n', 'y', 'a']);
    reveal_strlit("oci");
    assert(code_3_at(159) =~= seq!['o', 'c', 'i']);
    reveal_strlit("oji");
    assert(code_3_at(160) =~= seq!['o', 'j', 'i']);
    reveal_strlit("ori");
    assert(code_3_at(161) =~= seq!['o', 'r', 'i']);
    reveal_strlit("orm");
    assert(code_3_at(162) =~= seq!['o', 'r', 'm']);
    reveal_strlit("oss");
    assert(code_3_at(163) =~= seq!['o', 's', 's']);
    reveal_strlit("ota");
    assert(code_3_at(164) =~= seq!['o', 't', 'a']);
    reveal_strlit("pal");
    assert(code_3_at(165) =~= seq!['p', 'a', 'l']);
    reveal_strlit("pan");
    assert(code_3_at(166) =~= seq!['p', 'a', 'n']);
    reveal_strlit("peo");
    assert(code_3_at(167) =~= seq!['p', 'e', 'o']);
    reveal_strlit("pes");
    assert(code_3_at(168) =~= seq!['p', 'e', 's']);
    reveal_strlit("pli");
    assert(code_3_at(169) =~= seq!['p', 'l', 'i']);
    reveal_strlit("pol");
    assert(code_3_at(170) =~= seq!['p', 'o', 'l']);
    reveal_strlit("por");
    assert(code_3_at(171) =~= seq!['p', 'o', 'r']);
    reveal_strlit("pus");
    assert(code_3_at(172) =~= seq!['p', 'u', 's']);
    reveal_strlit("que");
    assert(code_3_at(173) =~= seq!['q', 'u', 'e']);
    reveal_strlit("roh");
    assert(code_3_at(174) =~= seq!['r', 'o', 'h']);
    reveal_strlit("ron");
    assert(code_3_at(175) =~= seq!['r', 'o', 'n']);
    reveal_strlit("run");
    assert(code_3_at(176) =~= seq!['r', 'u', 'n']);
    reveal_strlit("rus");
    assert(code_3_at(177) =~= seq!['r', 'u', 's']);
    reveal_strlit("sag");
    assert(code_3_at(178) =~= seq!['s', 'a', 'g']);
    reveal_strlit("san");
    assert(code_3_at(179) =~= seq!['s', 'a', 'n']);
    reveal_strlit("scn");
    assert(code_3_at(180) =~= seq!['s', 'c', 'n']);
    reveal_strlit("sco");
    assert(code_3_at(181) =~= seq!['s', 'c', 'o']);
    reveal_strlit("sga");
    assert(code_3_at(182) =~= seq!['s', 'g', 'a']);
    reveal_strlit("sin");
    assert(code_3_at(183) =~= seq!['s', 'i', 'n']);
    reveal_strlit("slk");
    assert(code_3_at(184) =~= seq!['s', 'l', 'k']);
    reveal_strlit("slv");
    assert(code_3_at(185) =~= seq!['s', 'l', 'v']);
    reveal_strlit("sme");
    assert(code_3_at(186) =~= seq!['s', 'm', 'e']);
    reveal_strlit("smo");
    assert(code_3_at(187) =~= seq!['s', 'm', 'o']);
    reveal_strlit("sna");
    assert(code_3_at(188) =~= seq!['s', 'n', 'a']);
    reveal_strlit("snd");
    assert(code_3_at(189) =~= seq!['s', 'n', 'd']);
    reveal_strlit("som");
    assert(code_3_at(190) =~= seq!['s', 'o', 'm']);
    reveal_strlit("sot");
    assert(code_3_at(191) =~= seq!['s', 'o', 't']);
    reveal_strlit("spa");
    assert(code_3_at(192) =~= seq!['s', 'p', 'a']);
    reveal_strlit("sqi");
    assert(code_3_at(193) =~= seq!['s', 'q', 'i']);
    reveal_strlit("srd");
    assert(code_3_at(194) =~= seq!['s', 'r', 'd']);
    reveal_strlit("srp");
    assert(code_3_at(195) =~= seq!['s', 'r', 'p']);
    reveal_strlit("ssw");
    assert(code_3_at(196) =~= seq!['s', 's', 'w']);
    reveal_strlit("sun");
    assert(code_3_at(197) =~= seq!['s', 'u', 'n']);
    reveal_strlit("sux");
    assert(code_3_at(198) =~= seq!['s', 'u', 'x']);
    reveal_strlit("swa");
    assert(code_3_at(199) =~= seq!['s', 'w', 'a']);
    reveal_strlit("swe");
    assert(code_3_at(200) =~= seq!['s', 'w', 'e']);
    reveal_strlit("swh");
    assert(code_3_at(201) =~= seq!['s', 'w', 'h']);
    reveal_strlit("tah");
    assert(code_3_at(202) =~= seq!['t', 'a', 'h']);
    reveal_strlit("tam");
    assert(code_3_at(203) =~= seq!['t', 'a', 'm']);
    reveal_strlit("tat");
    assert(code_3_at(204) =~= seq!['t', 'a', 't']);
    reveal_strlit("tel");
    assert(code_3_at(205) =~= seq!['t', 'e', 'l']);
    reveal_strlit("tgk");
    assert(code_3_at(206) =~= seq!['t', 'g', 'k']);
    reveal_strlit("tgl");
    assert(code_3_at(207) =~= seq!['t', 'g', 'l']);
    reveal_strlit("tha");
    assert(code_3_at(208) =~= seq!['t', 'h', 'a']);
    reveal_strlit("tir");
    assert(code_3_at(209) =~= seq!['t', 'i', 'r']);
    reveal_strlit("tlh");
    assert(code_3_at(210) =~= seq!['t', 'l', 'h']);
    reveal_strlit("ton");
    assert(code_3_at(211) =~= seq!['t', 'o', 'n']);
    reveal_strlit("tsn");
    assert(code_3_at(212) =~= seq!['t', 's', 'n']);
    reveal_strlit("tso");
    assert(code_3_at(213) =~= seq!['t', 's', 'o']);
    reveal_strlit("tuk");
    assert(code_3_at(214) =~= seq!['t', 'u', 'k']);
    reveal_strlit("tur");
    assert(code_3_at(215) =~= seq!['t', 'u', 'r']);
    reveal_strlit("twi");
    assert(code_3_at(216) =~= seq!['t', 'w', 'i']);
    reveal_strlit("uig");
    assert(code_3_at(217) =~= seq!['u', 'i', 'g']);
    reveal_strlit("ukr");
    assert(code_3_at(218) =~= seq!['u', 'k', 'r']);
    reveal_strlit("und");
    assert(code_3_at(219) =~= seq!['u', 'n', 'd']);
    reveal_strlit("urd");
    assert(code_3_at(220) =~= seq!['u', 'r', 'd']);
    reveal_strlit("uzb");
    assert(code_3_at(221) =~= seq!['u', 'z', 'b']);
    reveal_strlit("vec");
    assert(code_3_at(222) =~= seq!['v', 'e', 'c']);
    reveal_strlit("ven");
    assert(code_3_at(223) =~= seq!['v', 'e', 'n']);
    reveal_strlit("vie");
    assert(code_3_at(224) =~= seq!['v', 'i', 'e']);
    reveal_strlit("vol");
    assert(code_3_at(225) =~= seq!['v', 'o', 'l']);
    reveal_strlit("war");
    assert(code_3_at(226) =~= seq!['w', 'a', 'r']);
    reveal_strlit("wln");
    assert(code_3_at(227) =~= seq!['w', 'l', 'n']);
    reveal_strlit("wol");
    assert(code_3_at(228) =~= seq!['w', 'o', 'l']);
    reveal_strlit("wuu");
    assert(code_3_at(229) =~= seq!['w', 'u', 'u']);
    reveal_strlit("xho");
    assert(code_3_at(230) =~= seq!['x', 'h', 'o']);
    reveal_strlit("yid");
    assert(code_3_at(231) =~= seq!['y', 'i', 'd']);
    reveal_strlit("yor");
    assert(code_3_at(232) =~= seq!['y', 'o', 'r']);
    reveal_strlit("yue");
    assert(code_3_at(233) =~= seq!['y', 'u', 'e']);
    reveal_strlit("zha");
    assert(code_3_at(234) =~= seq!['z', 'h', 'a']);
    reveal_strlit("zho");
    assert(code_3_at(235) =~= seq!['z', 'h', 'o']);
    reveal_strlit("zul");
    assert(code_3_at(236) =~= seq!['z', 'u', 'l']);
    reveal_strlit("zxx");
    assert(code_3_at(237) =~= seq!['z', 'x', 'x']);
}

} // verus!
