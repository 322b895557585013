//! The names of the table, measured one by one.

use vstd::prelude::*;
use crate::overview::name_at;
use crate::table::LANGUAGE_COUNT;

verus! {

/// Every record of the table has a name.
pub proof fn lemma_names()
    ensures
        forall|i: int| 0 <= i < LANGUAGE_COUNT ==> (#[trigger] name_at(i)).len() > 0,
{
    reveal(name_at);
    reveal_strlit("Afar");
    assert(name_at(0).len() == 4);
    reveal_strlit("Abkhazian");
    assert(name_at(1).len() == 9);
    reveal_strlit("Afrikaans");
    assert(name_at(2).len() == 9);
    reveal_strlit("Akan");
    assert(name_at(3).len() == 4);
    reveal_strlit("Akkadian");
    assert(name_at(4).len() == 8);
    reveal_strlit("Amharic");
    assert(name_at(5).len() == 7);
    reveal_strlit("Old English");
    assert(name_at(6).len() == 11);
    reveal_strlit("Arabic");
    assert(name_at(7).len() == 6);
    reveal_strlit("Standard Arabic");
    assert(name_at(8).len() == 15);
    reveal_strlit("Official Aramaic");
    assert(name_at(9).len() == 16);
    reveal_strlit("Aragonese");
    assert(name_at(10).len() == 9);
    reveal_strlit("Assamese");
    assert(name_at(11).len() == 8);
    reveal_strlit("Asturian");
    assert(name_at(12).len() == 8);
    reveal_strlit("Avaric");
    assert(name_at(13).len() == 6);
    reveal_strlit("Avestan");
    assert(name_at(14).len() == 7);
    reveal_strlit("Aymara");
    assert(name_at(15).len() == 6);
    reveal_strlit("Azerbaijani");
    assert(name_at(16).len() == 11);
    reveal_strlit("Bashkir");
    assert(name_at(17).len() == 7);
    reveal_strlit("Bambara");
    assert(name_at(18).len() == 7);
    reveal_strlit("Belarusian");
    assert(name_at(19).len() == 10);
    reveal_strlit("Bengali");
    assert(name_at(20).len() == 7);
    reveal_strlit("Bislama");
    assert(name_at(21).len() == 7);
    reveal_strlit("Tibetan");
    assert(name_at(22).len() == 7);
    reveal_strlit("Bosnian");
    assert(name_at(23).len() == 7);
    reveal_strlit("Breton");
    assert(name_at(24).len() == 6);
    reveal_strlit("Bulgarian");
    assert(name_at(25).len() == 9);
    reveal_strlit("Catalan");
    assert(name_at(26).len() == 7);
    reveal_strlit("Cebuano");
    assert(name_at(27).len() == 7);
    reveal_strlit("Czech");
    assert(name_at(28).len() == 5);
    reveal_strlit("Chamorro");
    assert(name_at(29).len() == 8);
    reveal_strlit("Chechen");
    assert(name_at(30).len() == 7);
    reveal_strlit("Cherokee");
    assert(name_at(31).len() == 8);
    reveal_strlit("Church Slavic");
    assert(name_at(32).len() == 13);
    reveal_strlit("Chuvash");
    assert(name_at(33).len() == 7);
    reveal_strlit("Mandarin Chinese");
    assert(name_at(34).len() == 16);
    reveal_strlit("Coptic");
    assert(name_at(35).len() == 6);
    reveal_strlit("Cornish");
    assert(name_at(36).len() == 7);
    reveal_strlit("Corsican");
    assert(name_at(37).len() == 8);
    reveal_strlit("Cree");
    assert(name_at(38).len() == 4);
    reveal_strlit("Welsh");
    assert(name_at(39).len() == 5);
    reveal_strlit("Danish");
    assert(name_at(40).len() == 6);
    reveal_strlit("German");
    assert(name_at(41).len() == 6);
    reveal_strlit("Dhivehi");
    assert(name_at(42).len() == 7);
    reveal_strlit("Lower Sorbian");
    assert(name_at(43).len() == 13);
    reveal_strlit("Dzongkha");
    assert(name_at(44).len() == 8);
    reveal_strlit("Egyptian");
    assert(name_at(45).len() == 8);
    reveal_strlit("Standard Estonian");
    assert(name_at(46).len() == 17);
    reveal_strlit("Modern Greek");
    assert(name_at(47).len() == 12);
    reveal_strlit("English");
    assert(name_at(48).len() == 7);
    reveal_strlit("Middle English");
    assert(name_at(49).len() == 14);
    reveal_strlit("Esperanto");
    assert(name_at(50).len() == 9);
    reveal_strlit("Estonian");
    assert(name_at(51).len() == 8);
    reveal_strlit("Basque");
    assert(name_at(52).len() == 6);
    reveal_strlit("Ewe");
    assert(name_at(53).len() == 3);
    reveal_strlit("Faroese");
    assert(name_at(54).len() == 7);
    reveal_strlit("Persian");
    assert(name_at(55).len() == 7);
    reveal_strlit("Fijian");
    assert(name_at(56).len() == 6);
    reveal_strlit("Filipino");
    assert(name_at(57).len() == 8);
    reveal_strlit("Finnish");
    assert(name_at(58).len() == 7);
    reveal_strlit("French");
    assert(name_at(59).len() == 6);
    reveal_strlit("Middle French");
    assert(name_at(60).len() == 13);
    reveal_strlit("Old French");
    assert(name_at(61).len() == 10);
    reveal_strlit("Western Frisian");
    assert(name_at(62).len() == 15);
    reveal_strlit("Fulah");
    assert(name_at(63).len() == 5);
    reveal_strlit("Friulian");
    assert(name_at(64).len() == 8);
    reveal_strlit("Ghadamès");
    assert(name_at(65).len() == 8);
    reveal_strlit("Scottish Gaelic");
    assert(name_at(66).len() == 15);
    reveal_strlit("Irish");
    assert(name_at(67).len() == 5);
    reveal_strlit("Galician");
    assert(name_at(68).len() == 8);
    reveal_strlit("Manx");
    assert(name_at(69).len() == 4);
    reveal_strlit("Middle High German");
    assert(name_at(70).len() == 18);
    reveal_strlit("Old High German");
    assert(name_at(71).len() == 15);
    reveal_strlit("Gothic");
    assert(name_at(72).len() == 6);
    reveal_strlit("Ancient Greek");
    assert(name_at(73).len() == 13);
    reveal_strlit("Guarani");
    assert(name_at(74).len() == 7);
    reveal_strlit("Swiss German");
    assert(name_at(75).len() == 12);
    reveal_strlit("Gujarati");
    assert(name_at(76).len() == 8);
    reveal_strlit("Hakka Chinese");
    assert(name_at(77).len() == 13);
    reveal_strlit("Haitian");
    assert(name_at(78).len() == 7);
    reveal_strlit("Hausa");
    assert(name_at(79).len() == 5);
    reveal_strlit("Hawaiian");
    assert(name_at(80).len() == 8);
    reveal_strlit("Serbo-Croatian");
    assert(name_at(81).len() == 14);
    reveal_strlit("Hebrew");
    assert(name_at(82).len() == 6);
    reveal_strlit("Herero");
    assert(name_at(83).len() == 6);
    reveal_strlit("Hindi");
    assert(name_at(84).len() == 5);
    reveal_strlit("Hittite");
    assert(name_at(85).len() == 7);
    reveal_strlit("Hiri Motu");
    assert(name_at(86).len() == 9);
    reveal_strlit("Croatian");
    assert(name_at(87).len() == 8);
    reveal_strlit("Upper Sorbian");
    assert(name_at(88).len() == 13);
    reveal_strlit("Hungarian");
    assert(name_at(89).len() == 9);
    reveal_strlit("Armenian");
    assert(name_at(90).len() == 8);
    reveal_strlit("Igbo");
    assert(name_at(91).len() == 4);
    reveal_strlit("Ido");
    assert(name_at(92).len() == 3);
    reveal_strlit("Sichuan Yi");
    assert(name_at(93).len() == 10);
    reveal_strlit("Inuktitut");
    assert(name_at(94).len() == 9);
    reveal_strlit("Interlingue");
    assert(name_at(95).len() == 11);
    reveal_strlit("Iloko");
    assert(name_at(96).len() == 5);
    reveal_strlit("Interlingua");
    assert(name_at(97).len() == 11);
    reveal_strlit("Indonesian");
    assert(name_at(98).len() == 10);
    reveal_strlit("Inupiaq");
    assert(name_at(99).len() == 7);
    reveal_strlit("Icelandic");
    assert(name_at(100).len() == 9);
    reveal_strlit("Italian");
    assert(name_at(101).len() == 7);
    reveal_strlit("Javanese");
    assert(name_at(102).len() == 8);
    reveal_strlit("Lojban");
    assert(name_at(103).len() == 6);
    reveal_strlit("Japanese");
    assert(name_at(104).len() == 8);
    reveal_strlit("Kabyle");
    assert(name_at(105).len() == 6);
    reveal_strlit("Kalaallisut");
    assert(name_at(106).len() == 11);
    reveal_strlit("Kannada");
    assert(name_at(107).len() == 7);
    reveal_strlit("Kashmiri");
    assert(name_at(108).len() == 8);
    reveal_strlit("Georgian");
    assert(name_at(109).len() == 8);
    reveal_strlit("Kanuri");
    assert(name_at(110).len() == 6);
    reveal_strlit("Kazakh");
    assert(name_at(111).len() == 6);
    reveal_strlit("Khmer");
    assert(name_at(112).len() == 5);
    reveal_strlit("Kikuyu");
    assert(name_at(113).len() == 6);
    reveal_strlit("Kinyarwanda");
    assert(name_at(114).len() == 11);
    reveal_strlit("Kirghiz");
    assert(name_at(115).len() == 7);
    reveal_strlit("Komi");
    assert(name_at(116).len() == 4);
    reveal_strlit("Kongo");
    assert(name_at(117).len() == 5);
    reveal_strlit("Korean");
    assert(name_at(118).len() == 6);
    reveal_strlit("Kuanyama");
    assert(name_at(119).len() == 8);
    reveal_strlit("Kurdish");
    assert(name_at(120).len() == 7);
    reveal_strlit("Lao");
    assert(name_at(121).len() == 3);
    reveal_strlit("Latin");
    assert(name_at(122).len() == 5);
    reveal_strlit("Latvian");
    assert(name_at(123).len() == 7);
    reveal_strlit("Limburgan");
    assert(name_at(124).len() == 9);
    reveal_strlit("Lingala");
    assert(name_at(125).len() == 7);
    reveal_strlit("Lithuanian");
    assert(name_at(126).len() == 10);
    reveal_strlit("Luxembourgish");
    assert(name_at(127).len() == 13);
    reveal_strlit("Luba-Katanga");
    assert(name_at(128).len() == 12);
    reveal_strlit("Ganda");
    assert(name_at(129).len() == 5);
    reveal_strlit("Standard Latvian");
    assert(name_at(130).len() == 16);
    reveal_strlit("Literary Chinese");
    assert(name_at(131).len() == 16);
    reveal_strlit("Marshallese");
    assert(name_at(132).len() == 11);
    reveal_strlit("Malayalam");
    assert(name_at(133).len() == 9);
    reveal_strlit("Marathi");
    assert(name_at(134).len() == 7);
    reveal_strlit("Middle Irish");
    assert(name_at(135).len() == 12);
    reveal_strlit("Uncoded languages");
    assert(name_at(136).len() == 17);
    reveal_strlit("Macedonian");
    assert(name_at(137).len() == 10);
    reveal_strlit("Malagasy");
    assert(name_at(138).len() == 8);
    reveal_strlit("Maltese");
    assert(name_at(139).len() == 7);
    reveal_strlit("Mongolian");
    assert(name_at(140).len() == 9);
    reveal_strlit("Maori");
    assert(name_at(141).len() == 5);
    reveal_strlit("Malay");
    assert(name_at(142).len() == 5);
    reveal_strlit("Multiple languages");
    assert(name_at(143).len() == 18);
    reveal_strlit("Burmese");
    assert(name_at(144).len() == 7);
    reveal_strlit("Min Nan Chinese");
    assert(name_at(145).len() == 15);
    reveal_strlit("Nauru");
    assert(name_at(146).len() == 5);
    reveal_strlit("Navajo");
    assert(name_at(147).len() == 6);
    reveal_strlit("South Ndebele");
    assert(name_at(148).len() == 13);
    reveal_strlit("North Ndebele");
    assert(name_at(149).len() == 13);
    reveal_strlit("Ndonga");
    assert(name_at(150).len() == 6);
    reveal_strlit("Low German");
    assert(name_at(151).len() == 10);
    reveal_strlit("Nepali");
    assert(name_at(152).len() == 6);
    reveal_strlit("Dutch");
    assert(name_at(153).len() == 5);
    reveal_strlit("Norwegian Nynorsk");
    assert(name_at(154).len() == 17);
    reveal_strlit("Norwegian Bokmål");
    assert(name_at(155).len() == 16);
    reveal_strlit("Old Norse");
    assert(name_at(156).len() == 9);
    reveal_strlit("Norwegian");
    assert(name_at(157).len() == 9);
    reveal_strlit("Nyanja");
    assert(name_at(158).len() == 6);
    reveal_strlit("Occitan");
    assert(name_at(159).len() == 7);
    reveal_strlit("Ojibwa");
    assert(name_at(160).len() == 6);
    reveal_strlit("Oriya");
    assert(name_at(161).len() == 5);
    reveal_strlit("Oromo");
    assert(name_at(162).len() == 5);
    reveal_strlit("Ossetian");
    assert(name_at(163).len() == 8);
    reveal_strlit("Ottoman Turkish");
    assert(name_at(164).len() == 15);
    reveal_strlit("Pahlavi");
    assert(name_at(165).len() == 7);
    reveal_strlit("Panjabi");
    assert(name_at(166).len() == 7);
    reveal_strlit("Old Persian");
    assert(name_at(167).len() == 11);
    reveal_strlit("Iranian Persian");
    assert(name_at(168).len() == 15);
    reveal_strlit("Pali");
    assert(name_at(169).len() == 4);
    reveal_strlit("Polish");
    assert(name_at(170).len() == 6);
    reveal_strlit("Portuguese");
    assert(name_at(171).len() == 10);
    reveal_strlit("Pushto");
    assert(name_at(172).len() == 6);
    reveal_strlit("Quechua");
    assert(name_at(173).len() == 7);
    reveal_strlit("Romansh");
    assert(name_at(174).len() == 7);
    reveal_strlit("Romanian");
    assert(name_at(175).len() == 8);
    reveal_strlit("Rundi");
    assert(name_at(176).len() == 5);
    reveal_strlit("Russian");
    assert(name_at(177).len() == 7);
    reveal_strlit("Sango");
    assert(name_at(178).len() == 5);
    reveal_strlit("Sanskrit");
    assert(name_at(179).len() == 8);
    reveal_strlit("Sicilian");
    assert(name_at(180).len() == 8);
    reveal_strlit("Scots");
    assert(name_at(181).len() == 5);
    reveal_strlit("Old Irish");
    assert(name_at(182).len() == 9);
    reveal_strlit("Sinhala");
    assert(name_at(183).len() == 7);
    reveal_strlit("Slovak");
    assert(name_at(184).len() == 6);
    reveal_strlit("Slovenian");
    assert(name_at(185).len() == 9);
    reveal_strlit("Northern Sami");
    assert(name_at(186).len() == 13);
    reveal_strlit("Samoan");
    assert(name_at(187).len() == 6);
    reveal_strlit("Shona");
    assert(name_at(188).len() == 5);
    reveal_strlit("Sindhi");
    assert(name_at(189).len() == 6);
    reveal_strlit("Somali");
    assert(name_at(190).len() == 6);
    reveal_strlit("Southern Sotho");
    assert(name_at(191).len() == 14);
    reveal_strlit("Spanish");
    assert(name_at(192).len() == 7);
    reveal_strlit("Albanian");
    assert(name_at(193).len() == 8);
    reveal_strlit("Sardinian");
    assert(name_at(194).len() == 9);
    reveal_strlit("Serbian");
    assert(name_at(195).len() == 7);
    reveal_strlit("Swati");
    assert(name_at(196).len() == 5);
    reveal_strlit("Sundanese");
    assert(name_at(197).len() == 9);
    reveal_strlit("Sumerian");
    assert(name_at(198).len() == 8);
    reveal_strlit("Swahili");
    assert(name_at(199).len() == 7);
    reveal_strlit("Swedish");
    assert(name_at(200).len() == 7);
    reveal_strlit("Swahili");
    assert(name_at(201).len() == 7);
    reveal_strlit("Tahitian");
    assert(name_at(202).len() == 8);
    reveal_strlit("Tamil");
    assert(name_at(203).len() == 5);
    reveal_strlit("Tatar");
    assert(name_at(204).len() == 5);
    reveal_strlit("Telugu");
    assert(name_at(205).len() == 6);
    reveal_strlit("Tajik");
    assert(name_at(206).len() == 5);
    reveal_strlit("Tagalog");
    assert(name_at(207).len() == 7);
    reveal_strlit("Thai");
    assert(name_at(208).len() == 4);
    reveal_strlit("Tigrinya");
    assert(name_at(209).len() == 8);
    reveal_strlit("Klingon");
    assert(name_at(210).len() == 7);
    reveal_strlit("Tonga");
    assert(name_at(211).len() == 5);
    reveal_strlit("Tswana");
    assert(name_at(212).len() == 6);
    reveal_strlit("Tsonga");
    assert(name_at(213).len() == 6);
    reveal_strlit("Turkmen");
    assert(name_at(214).len() == 7);
    reveal_strlit("Turkish");
    assert(name_at(215).len() == 7);
    reveal_strlit("Twi");
    assert(name_at(216).len() == 3);
    reveal_strlit("Uighur");
    assert(name_at(217).len() == 6);
    reveal_strlit("Ukrainian");
    assert(name_at(218).len() == 9);
    reveal_strlit("Undetermined");
    assert(name_at(219).len() == 12);
    reveal_strlit("Urdu");
    assert(name_at(220).len() == 4);
    reveal_strlit("Uzbek");
    assert(name_at(221).len() == 5);
    reveal_strlit("Venetian");
    assert(name_at(222).len() == 8);
    reveal_strlit("Venda");
    assert(name_at(223).len() == 5);
    reveal_strlit("Vietnamese");
    assert(name_at(224).len() == 10);
    reveal_strlit("Volapük");
    assert(name_at(225).len() == 7);
    reveal_strlit("Waray");
    assert(name_at(226).len() == 5);
    reveal_strlit("Walloon");
    assert(name_at(227).len() == 7);
    reveal_strlit("Wolof");
    assert(name_at(228).len() == 5);
    reveal_strlit("Wu Chinese");
    assert(name_at(229).len() == 10);
    reveal_strlit("Xhosa");
    assert(name_at(230).len() == 5);
    reveal_strlit("Yiddish");
    assert(name_at(231).len() == 7);
    reveal_strlit("Yoruba");
    assert(name_at(232).len() == 6);
    reveal_strlit("Yue Chinese");
    assert(name_at(233).len() == 11);
    reveal_strlit("Zhuang");
    assert(name_at(234).len() == 6);
    reveal_strlit("Chinese");
    assert(name_at(235).len() == 7);
    reveal_strlit("Zulu");
    assert(name_at(236).len() == 4);
    reveal_strlit("No linguistic content");
    assert(name_at(237).len() == 21);
}

} // verus!
