//! The overview table: one record per language, in the order of the
//! three-letter codes, and the two reverse indexes built from it.
//!
//! A record's place in the table is the number of its [`Language`]
//! variant. A new record goes where its code sorts, and moves the records
//! behind it and their numbers with them.

use vstd::prelude::*;

verus! {

/// A language, named by its three-letter code.
///
/// There is one variant for each record of [`OVERVIEW`], in table order: the
/// number of a variant is the index of its record.
#[derive(Clone, Copy, PartialEq, Eq, Structural, Hash, Debug, Ord)]
pub enum Language {
    Aar,
    Abk,
    Afr,
    Aka,
    Akk,
    Amh,
    Ang,
    Ara,
    Arb,
    Arc,
    Arg,
    Asm,
    Ast,
    Ava,
    Ave,
    Aym,
    Aze,
    Bak,
    Bam,
    Bel,
    Ben,
    Bis,
    Bod,
    Bos,
    Bre,
    Bul,
    Cat,
    Ceb,
    Ces,
    Cha,
    Che,
    Chr,
    Chu,
    Chv,
    Cmn,
    Cop,
    Cor,
    Cos,
    Cre,
    Cym,
    Dan,
    Deu,
    Div,
    Dsb,
    Dzo,
    Egy,
    Ekk,
    Ell,
    Eng,
    Enm,
    Epo,
    Est,
    Eus,
    Ewe,
    Fao,
    Fas,
    Fij,
    Fil,
    Fin,
    Fra,
    Frm,
    Fro,
    Fry,
    Ful,
    Fur,
    Gha,
    Gla,
    Gle,
    Glg,
    Glv,
    Gmh,
    Goh,
    Got,
    Grc,
    Grn,
    Gsw,
    Guj,
    Hak,
    Hat,
    Hau,
    Haw,
    Hbs,
    Heb,
    Her,
    Hin,
    Hit,
    Hmo,
    Hrv,
    Hsb,
    Hun,
    Hye,
    Ibo,
    Ido,
    Iii,
    Iku,
    Ile,
    Ilo,
    Ina,
    Ind,
    Ipk,
    Isl,
    Ita,
    Jav,
    Jbo,
    Jpn,
    Kab,
    Kal,
    Kan,
    Kas,
    Kat,
    Kau,
    Kaz,
    Khm,
    Kik,
    Kin,
    Kir,
    Kom,
    Kon,
    Kor,
    Kua,
    Kur,
    Lao,
    Lat,
    Lav,
    Lim,
    Lin,
    Lit,
    Ltz,
    Lub,
    Lug,
    Lvs,
    Lzh,
    Mah,
    Mal,
    Mar,
    Mga,
    Mis,
    Mkd,
    Mlg,
    Mlt,
    Mon,
    Mri,
    Msa,
    Mul,
    Mya,
    Nan,
    Nau,
    Nav,
    Nbl,
    Nde,
    Ndo,
    Nds,
    Nep,
    Nld,
    Nno,
    Nob,
    Non,
    Nor,
    Nya,
    Oci,
    Oji,
    Ori,
    Orm,
    Oss,
    Ota,
    Pal,
    Pan,
    Peo,
    Pes,
    Pli,
    Pol,
    Por,
    Pus,
    Que,
    Roh,
    Ron,
    Run,
    Rus,
    Sag,
    San,
    Scn,
    Sco,
    Sga,
    Sin,
    Slk,
    Slv,
    Sme,
    Smo,
    Sna,
    Snd,
    Som,
    Sot,
    Spa,
    Sqi,
    Srd,
    Srp,
    Ssw,
    Sun,
    Sux,
    Swa,
    Swe,
    Swh,
    Tah,
    Tam,
    Tat,
    Tel,
    Tgk,
    Tgl,
    Tha,
    Tir,
    Tlh,
    Ton,
    Tsn,
    Tso,
    Tuk,
    Tur,
    Twi,
    Uig,
    Ukr,
    Und,
    Urd,
    Uzb,
    Vec,
    Ven,
    Vie,
    Vol,
    War,
    Wln,
    Wol,
    Wuu,
    Xho,
    Yid,
    Yor,
    Yue,
    Zha,
    Zho,
    Zul,
    Zxx,
}

/// The number of records in the table.
pub const LANGUAGE_COUNT: usize = 238;

/// The records: three-letter code, two-letter code, English name, English
/// name in lower case, autonym. A record without a two-letter code or
/// without an autonym holds the empty string in its place.
pub const OVERVIEW: [(&'static str, &'static str, &'static str, &'static str, &'static str); 238] = [
    ("aar", "aa", "Afar", "afar", "Afaraf"),
    ("abk", "ab", "Abkhazian", "abkhazian", "Аҧсуа"),
    ("afr", "af", "Afrikaans", "afrikaans", "Afrikaans"),
    ("aka", "ak", "Akan", "akan", "Akan"),
    ("akk", "", "Akkadian", "akkadian", ""),
    ("amh", "am", "Amharic", "amharic", "አማርኛ"),
    ("ang", "", "Old English", "old english", ""),
    ("ara", "ar", "Arabic", "arabic", "العربية"),
    ("arb", "", "Standard Arabic", "standard arabic", ""),
    ("arc", "", "Official Aramaic", "official aramaic", ""),
    ("arg", "an", "Aragonese", "aragonese", "aragonés"),
    ("asm", "as", "Assamese", "assamese", "অসমীয়া"),
    ("ast", "", "Asturian", "asturian", "asturianu"),
    ("ava", "av", "Avaric", "avaric", "авар мацӀ"),
    ("ave", "ae", "Avestan", "avestan", "avesta"),
    ("aym", "ay", "Aymara", "aymara", "aymar aru"),
    ("aze", "az", "Azerbaijani", "azerbaijani", "azərbaycan dili"),
    ("bak", "ba", "Bashkir", "bashkir", "башҡорт теле"),
    ("bam", "bm", "Bambara", "bambara", "bamanankan"),
    ("bel", "be", "Belarusian", "belarusian", "беларуская"),
    ("ben", "bn", "Bengali", "bengali", "বাংলা"),
    ("bis", "bi", "Bislama", "bislama", "Bislama"),
    ("bod", "bo", "Tibetan", "tibetan", "བོད་ཡིག"),
    ("bos", "bs", "Bosnian", "bosnian", "bosanski jezik"),
    ("bre", "br", "Breton", "breton", "brezhoneg"),
    ("bul", "bg", "Bulgarian", "bulgarian", "български"),
    ("cat", "ca", "Catalan", "catalan", "català"),
    ("ceb", "", "Cebuano", "cebuano", "Cebuano"),
    ("ces", "cs", "Czech", "czech", "čeština"),
    ("cha", "ch", "Chamorro", "chamorro", "Chamoru"),
    ("che", "ce", "Chechen", "chechen", "нохчийн мотт"),
    ("chr", "", "Cherokee", "cherokee", "ᏣᎳᎩ"),
    ("chu", "cu", "Church Slavic", "church slavic", "ѩзыкъ словѣньскъ"),
    ("chv", "cv", "Chuvash", "chuvash", "чӑваш чӗлхи"),
    ("cmn", "", "Mandarin Chinese", "mandarin chinese", "官話"),
    ("cop", "", "Coptic", "coptic", ""),
    ("cor", "kw", "Cornish", "cornish", "Kernewek"),
    ("cos", "co", "Corsican", "corsican", "corsu"),
    ("cre", "cr", "Cree", "cree", "ᓀᐦᐃᔭᐍᐏᐣ"),
    ("cym", "cy", "Welsh", "welsh", "Cymraeg"),
    ("dan", "da", "Danish", "danish", "dansk"),
    ("deu", "de", "German", "german", "Deutsch"),
    ("div", "dv", "Dhivehi", "dhivehi", "ދިވެހި"),
    ("dsb", "", "Lower Sorbian", "lower sorbian", "dolnoserbski"),
    ("dzo", "dz", "Dzongkha", "dzongkha", "རྫོང་ཁ"),
    ("egy", "", "Egyptian", "egyptian", ""),
    ("ekk", "", "Standard Estonian", "standard estonian", ""),
    ("ell", "el", "Modern Greek", "modern greek", "ελληνικά"),
    ("eng", "en", "English", "english", "English"),
    ("enm", "", "Middle English", "middle english", ""),
    ("epo", "eo", "Esperanto", "esperanto", "Esperanto"),
    ("est", "et", "Estonian", "estonian", "eesti"),
    ("eus", "eu", "Basque", "basque", "euskara"),
    ("ewe", "ee", "Ewe", "ewe", "Eʋegbe"),
    ("fao", "fo", "Faroese", "faroese", "føroyskt"),
    ("fas", "fa", "Persian", "persian", "فارسی"),
    ("fij", "fj", "Fijian", "fijian", "vosa Vakaviti"),
    ("fil", "", "Filipino", "filipino", "Filipino"),
    ("fin", "fi", "Finnish", "finnish", "suomi"),
    ("fra", "fr", "French", "french", "français"),
    ("frm", "", "Middle French", "middle french", ""),
    ("fro", "", "Old French", "old french", ""),
    ("fry", "fy", "Western Frisian", "western frisian", "Frysk"),
    ("ful", "ff", "Fulah", "fulah", "Fulfulde"),
    ("fur", "", "Friulian", "friulian", "furlan"),
    ("gha", "", "Ghadamès", "ghadamès", ""),
    ("gla", "gd", "Scottish Gaelic", "scottish gaelic", "Gàidhlig"),
    ("gle", "ga", "Irish", "irish", "Gaeilge"),
    ("glg", "gl", "Galician", "galician", "galego"),
    ("glv", "gv", "Manx", "manx", "Gaelg"),
    ("gmh", "", "Middle High German", "middle high german", ""),
    ("goh", "", "Old High German", "old high german", ""),
    ("got", "", "Gothic", "gothic", ""),
    ("grc", "", "Ancient Greek", "ancient greek", ""),
    ("grn", "gn", "Guarani", "guarani", "Avañe'ẽ"),
    ("gsw", "", "Swiss German", "swiss german", "Schwiizerdütsch"),
    ("guj", "gu", "Gujarati", "gujarati", "ગુજરાતી"),
    ("hak", "", "Hakka Chinese", "hakka chinese", ""),
    ("hat", "ht", "Haitian", "haitian", "Kreyòl ayisyen"),
    ("hau", "ha", "Hausa", "hausa", "Hausa"),
    ("haw", "", "Hawaiian", "hawaiian", "ʻŌlelo Hawaiʻi"),
    ("hbs", "sh", "Serbo-Croatian", "serbo-croatian", "srpskohrvatski"),
    ("heb", "he", "Hebrew", "hebrew", "עברית"),
    ("her", "hz", "Herero", "herero", "Otjiherero"),
    ("hin", "hi", "Hindi", "hindi", "हिन्दी"),
    ("hit", "", "Hittite", "hittite", ""),
    ("hmo", "ho", "Hiri Motu", "hiri motu", "Hiri Motu"),
    ("hrv", "hr", "Croatian", "croatian", "hrvatski"),
    ("hsb", "", "Upper Sorbian", "upper sorbian", "hornjoserbsce"),
    ("hun", "hu", "Hungarian", "hungarian", "magyar"),
    ("hye", "hy", "Armenian", "armenian", "Հայերեն"),
    ("ibo", "ig", "Igbo", "igbo", "Asụsụ Igbo"),
    ("ido", "io", "Ido", "ido", "Ido"),
    ("iii", "ii", "Sichuan Yi", "sichuan yi", "ꆈꌠ꒿"),
    ("iku", "iu", "Inuktitut", "inuktitut", "ᐃᓄᒃᑎᑐᑦ"),
    ("ile", "ie", "Interlingue", "interlingue", "Interlingue"),
    ("ilo", "", "Iloko", "iloko", ""),
    ("ina", "ia", "Interlingua", "interlingua", "Interlingua"),
    ("ind", "id", "Indonesian", "indonesian", "Bahasa Indonesia"),
    ("ipk", "ik", "Inupiaq", "inupiaq", "Iñupiaq"),
    ("isl", "is", "Icelandic", "icelandic", "íslenska"),
    ("ita", "it", "Italian", "italian", "italiano"),
    ("jav", "jv", "Javanese", "javanese", "basa Jawa"),
    ("jbo", "", "Lojban", "lojban", "la .lojban."),
    ("jpn", "ja", "Japanese", "japanese", "日本語"),
    ("kab", "", "Kabyle", "kabyle", "Taqbaylit"),
    ("kal", "kl", "Kalaallisut", "kalaallisut", "kalaallisut"),
    ("kan", "kn", "Kannada", "kannada", "ಕನ್ನಡ"),
    ("kas", "ks", "Kashmiri", "kashmiri", "कश्मीरी"),
    ("kat", "ka", "Georgian", "georgian", "ქართული"),
    ("kau", "kr", "Kanuri", "kanuri", "Kanuri"),
    ("kaz", "kk", "Kazakh", "kazakh", "қазақ тілі"),
    ("khm", "km", "Khmer", "khmer", "ខ្មែរ"),
    ("kik", "ki", "Kikuyu", "kikuyu", "Gĩkũyũ"),
    ("kin", "rw", "Kinyarwanda", "kinyarwanda", "Ikinyarwanda"),
    ("kir", "ky", "Kirghiz", "kirghiz", "Кыргызча"),
    ("kom", "kv", "Komi", "komi", "коми кыв"),
    ("kon", "kg", "Kongo", "kongo", "Kikongo"),
    ("kor", "ko", "Korean", "korean", "한국어"),
    ("kua", "kj", "Kuanyama", "kuanyama", "Kuanyama"),
    ("kur", "ku", "Kurdish", "kurdish", "Kurdî"),
    ("lao", "lo", "Lao", "lao", "ພາສາລາວ"),
    ("lat", "la", "Latin", "latin", "latine"),
    ("lav", "lv", "Latvian", "latvian", "latviešu valoda"),
    ("lim", "li", "Limburgan", "limburgan", "Limburgs"),
    ("lin", "ln", "Lingala", "lingala", "Lingála"),
    ("lit", "lt", "Lithuanian", "lithuanian", "lietuvių kalba"),
    ("ltz", "lb", "Luxembourgish", "luxembourgish", "Lëtzebuergesch"),
    ("lub", "lu", "Luba-Katanga", "luba-katanga", "Tshiluba"),
    ("lug", "lg", "Ganda", "ganda", "Luganda"),
    ("lvs", "", "Standard Latvian", "standard latvian", ""),
    ("lzh", "", "Literary Chinese", "literary chinese", ""),
    ("mah", "mh", "Marshallese", "marshallese", "Kajin M̧ajeļ"),
    ("mal", "ml", "Malayalam", "malayalam", "മലയാളം"),
    ("mar", "mr", "Marathi", "marathi", "मराठी"),
    ("mga", "", "Middle Irish", "middle irish", ""),
    ("mis", "", "Uncoded languages", "uncoded languages", ""),
    ("mkd", "mk", "Macedonian", "macedonian", "македонски јазик"),
    ("mlg", "mg", "Malagasy", "malagasy", "fiteny malagasy"),
    ("mlt", "mt", "Maltese", "maltese", "Malti"),
    ("mon", "mn", "Mongolian", "mongolian", "монгол"),
    ("mri", "mi", "Maori", "maori", "te reo Māori"),
    ("msa", "ms", "Malay", "malay", "bahasa Melayu"),
    ("mul", "", "Multiple languages", "multiple languages", ""),
    ("mya", "my", "Burmese", "burmese", "ဗမာစာ"),
    ("nan", "", "Min Nan Chinese", "min nan chinese", ""),
    ("nau", "na", "Nauru", "nauru", "Ekakairũ Naoero"),
    ("nav", "nv", "Navajo", "navajo", "Diné bizaad"),
    ("nbl", "nr", "South Ndebele", "south ndebele", "isiNdebele"),
    ("nde", "nd", "North Ndebele", "north ndebele", "isiNdebele"),
    ("ndo", "ng", "Ndonga", "ndonga", "Owambo"),
    ("nds", "", "Low German", "low german", "Plattdüütsch"),
    ("nep", "ne", "Nepali", "nepali", "नेपाली"),
    ("nld", "nl", "Dutch", "dutch", "Nederlands"),
    ("nno", "nn", "Norwegian Nynorsk", "norwegian nynorsk", "Norsk nynorsk"),
    ("nob", "nb", "Norwegian Bokmål", "norwegian bokmål", "Norsk bokmål"),
    ("non", "", "Old Norse", "old norse", ""),
    ("nor", "no", "Norwegian", "norwegian", "Norsk"),
    ("nya", "ny", "Nyanja", "nyanja", "chiCheŵa"),
    ("oci", "oc", "Occitan", "occitan", "occitan"),
    ("oji", "oj", "Ojibwa", "ojibwa", "ᐊᓂᔑᓈᐯᒧᐎᓐ"),
    ("ori", "or", "Oriya", "oriya", "ଓଡ଼ିଆ"),
    ("orm", "om", "Oromo", "oromo", "Afaan Oromoo"),
    ("oss", "os", "Ossetian", "ossetian", "ирон æвзаг"),
    ("ota", "", "Ottoman Turkish", "ottoman turkish", ""),
    ("pal", "", "Pahlavi", "pahlavi", ""),
    ("pan", "pa", "Panjabi", "panjabi", "ਪੰਜਾਬੀ"),
    ("peo", "", "Old Persian", "old persian", ""),
    ("pes", "", "Iranian Persian", "iranian persian", ""),
    ("pli", "pi", "Pali", "pali", "पाऴि"),
    ("pol", "pl", "Polish", "polish", "polski"),
    ("por", "pt", "Portuguese", "portuguese", "português"),
    ("pus", "ps", "Pushto", "pushto", "پښتو"),
    ("que", "qu", "Quechua", "quechua", "Runa Simi"),
    ("roh", "rm", "Romansh", "romansh", "rumantsch grischun"),
    ("ron", "ro", "Romanian", "romanian", "română"),
    ("run", "rn", "Rundi", "rundi", "Ikirundi"),
    ("rus", "ru", "Russian", "russian", "русский"),
    ("sag", "sg", "Sango", "sango", "yângâ tî sängö"),
    ("san", "sa", "Sanskrit", "sanskrit", "संस्कृतम्"),
    ("scn", "", "Sicilian", "sicilian", "sicilianu"),
    ("sco", "", "Scots", "scots", "Scots"),
    ("sga", "", "Old Irish", "old irish", ""),
    ("sin", "si", "Sinhala", "sinhala", "සිංහල"),
    ("slk", "sk", "Slovak", "slovak", "slovenčina"),
    ("slv", "sl", "Slovenian", "slovenian", "slovenščina"),
    ("sme", "se", "Northern Sami", "northern sami", "Davvisámegiella"),
    ("smo", "sm", "Samoan", "samoan", "gagana fa'a Samoa"),
    ("sna", "sn", "Shona", "shona", "chiShona"),
    ("snd", "sd", "Sindhi", "sindhi", "सिन्धी"),
    ("som", "so", "Somali", "somali", "Soomaaliga"),
    ("sot", "st", "Southern Sotho", "southern sotho", "Sesotho"),
    ("spa", "es", "Spanish", "spanish", "español"),
    ("sqi", "sq", "Albanian", "albanian", "Shqip"),
    ("srd", "sc", "Sardinian", "sardinian", "sardu"),
    ("srp", "sr", "Serbian", "serbian", "српски језик"),
    ("ssw", "ss", "Swati", "swati", "SiSwati"),
    ("sun", "su", "Sundanese", "sundanese", "Basa Sunda"),
    ("sux", "", "Sumerian", "sumerian", ""),
    ("swa", "sw", "Swahili", "swahili", "Kiswahili"),
    ("swe", "sv", "Swedish", "swedish", "svenska"),
    ("swh", "", "Swahili", "swahili", ""),
    ("tah", "ty", "Tahitian", "tahitian", "Reo Tahiti"),
    ("tam", "ta", "Tamil", "tamil", "தமிழ்"),
    ("tat", "tt", "Tatar", "tatar", "татар теле"),
    ("tel", "te", "Telugu", "telugu", "తెలుగు"),
    ("tgk", "tg", "Tajik", "tajik", "тоҷикӣ"),
    ("tgl", "tl", "Tagalog", "tagalog", "Wikang Tagalog"),
    ("tha", "th", "Thai", "thai", "ไทย"),
    ("tir", "ti", "Tigrinya", "tigrinya", "ትግርኛ"),
    ("tlh", "", "Klingon", "klingon", "tlhIngan Hol"),
    ("ton", "to", "Tonga", "tonga", "faka Tonga"),
    ("tsn", "tn", "Tswana", "tswana", "Setswana"),
    ("tso", "ts", "Tsonga", "tsonga", "Xitsonga"),
    ("tuk", "tk", "Turkmen", "turkmen", "Türkmen"),
    ("tur", "tr", "Turkish", "turkish", "Türkçe"),
    ("twi", "tw", "Twi", "twi", "Twi"),
    ("uig", "ug", "Uighur", "uighur", "ئۇيغۇرچە"),
    ("ukr", "uk", "Ukrainian", "ukrainian", "українська"),
    ("und", "", "Undetermined", "undetermined", ""),
    ("urd", "ur", "Urdu", "urdu", "اردو"),
    ("uzb", "uz", "Uzbek", "uzbek", "Oʻzbek"),
    ("vec", "", "Venetian", "venetian", "vèneto"),
    ("ven", "ve", "Venda", "venda", "Tshivenḓa"),
    ("vie", "vi", "Vietnamese", "vietnamese", "Tiếng Việt"),
    ("vol", "vo", "Volapük", "volapük", "Volapük"),
    ("war", "", "Waray", "waray", ""),
    ("wln", "wa", "Walloon", "walloon", "walon"),
    ("wol", "wo", "Wolof", "wolof", "Wollof"),
    ("wuu", "", "Wu Chinese", "wu chinese", ""),
    ("xho", "xh", "Xhosa", "xhosa", "isiXhosa"),
    ("yid", "yi", "Yiddish", "yiddish", "ייִדיש"),
    ("yor", "yo", "Yoruba", "yoruba", "Yorùbá"),
    ("yue", "", "Yue Chinese", "yue chinese", "粵語"),
    ("zha", "za", "Zhuang", "zhuang", "Saɯ cueŋƅ"),
    ("zho", "zh", "Chinese", "chinese", "中文"),
    ("zul", "zu", "Zulu", "zulu", "isiZulu"),
    ("zxx", "", "No linguistic content", "no linguistic content", ""),
];

/// The languages in table order.
pub const LANGUAGES: [Language; 238] = [
    Language::Aar,
    Language::Abk,
    Language::Afr,
    Language::Aka,
    Language::Akk,
    Language::Amh,
    Language::Ang,
    Language::Ara,
    Language::Arb,
    Language::Arc,
    Language::Arg,
    Language::Asm,
    Language::Ast,
    Language::Ava,
    Language::Ave,
    Language::Aym,
    Language::Aze,
    Language::Bak,
    Language::Bam,
    Language::Bel,
    Language::Ben,
    Language::Bis,
    Language::Bod,
    Language::Bos,
    Language::Bre,
    Language::Bul,
    Language::Cat,
    Language::Ceb,
    Language::Ces,
    Language::Cha,
    Language::Che,
    Language::Chr,
    Language::Chu,
    Language::Chv,
    Language::Cmn,
    Language::Cop,
    Language::Cor,
    Language::Cos,
    Language::Cre,
    Language::Cym,
    Language::Dan,
    Language::Deu,
    Language::Div,
    Language::Dsb,
    Language::Dzo,
    Language::Egy,
    Language::Ekk,
    Language::Ell,
    Language::Eng,
    Language::Enm,
    Language::Epo,
    Language::Est,
    Language::Eus,
    Language::Ewe,
    Language::Fao,
    Language::Fas,
    Language::Fij,
    Language::Fil,
    Language::Fin,
    Language::Fra,
    Language::Frm,
    Language::Fro,
    Language::Fry,
    Language::Ful,
    Language::Fur,
    Language::Gha,
    Language::Gla,
    Language::Gle,
    Language::Glg,
    Language::Glv,
    Language::Gmh,
    Language::Goh,
    Language::Got,
    Language::Grc,
    Language::Grn,
    Language::Gsw,
    Language::Guj,
    Language::Hak,
    Language::Hat,
    Language::Hau,
    Language::Haw,
    Language::Hbs,
    Language::Heb,
    Language::Her,
    Language::Hin,
    Language::Hit,
    Language::Hmo,
    Language::Hrv,
    Language::Hsb,
    Language::Hun,
    Language::Hye,
    Language::Ibo,
    Language::Ido,
    Language::Iii,
    Language::Iku,
    Language::Ile,
    Language::Ilo,
    Language::Ina,
    Language::Ind,
    Language::Ipk,
    Language::Isl,
    Language::Ita,
    Language::Jav,
    Language::Jbo,
    Language::Jpn,
    Language::Kab,
    Language::Kal,
    Language::Kan,
    Language::Kas,
    Language::Kat,
    Language::Kau,
    Language::Kaz,
    Language::Khm,
    Language::Kik,
    Language::Kin,
    Language::Kir,
    Language::Kom,
    Language::Kon,
    Language::Kor,
    Language::Kua,
    Language::Kur,
    Language::Lao,
    Language::Lat,
    Language::Lav,
    Language::Lim,
    Language::Lin,
    Language::Lit,
    Language::Ltz,
    Language::Lub,
    Language::Lug,
    Language::Lvs,
    Language::Lzh,
    Language::Mah,
    Language::Mal,
    Language::Mar,
    Language::Mga,
    Language::Mis,
    Language::Mkd,
    Language::Mlg,
    Language::Mlt,
    Language::Mon,
    Language::Mri,
    Language::Msa,
    Language::Mul,
    Language::Mya,
    Language::Nan,
    Language::Nau,
    Language::Nav,
    Language::Nbl,
    Language::Nde,
    Language::Ndo,
    Language::Nds,
    Language::Nep,
    Language::Nld,
    Language::Nno,
    Language::Nob,
    Language::Non,
    Language::Nor,
    Language::Nya,
    Language::Oci,
    Language::Oji,
    Language::Ori,
    Language::Orm,
    Language::Oss,
    Language::Ota,
    Language::Pal,
    Language::Pan,
    Language::Peo,
    Language::Pes,
    Language::Pli,
    Language::Pol,
    Language::Por,
    Language::Pus,
    Language::Que,
    Language::Roh,
    Language::Ron,
    Language::Run,
    Language::Rus,
    Language::Sag,
    Language::San,
    Language::Scn,
    Language::Sco,
    Language::Sga,
    Language::Sin,
    Language::Slk,
    Language::Slv,
    Language::Sme,
    Language::Smo,
    Language::Sna,
    Language::Snd,
    Language::Som,
    Language::Sot,
    Language::Spa,
    Language::Sqi,
    Language::Srd,
    Language::Srp,
    Language::Ssw,
    Language::Sun,
    Language::Sux,
    Language::Swa,
    Language::Swe,
    Language::Swh,
    Language::Tah,
    Language::Tam,
    Language::Tat,
    Language::Tel,
    Language::Tgk,
    Language::Tgl,
    Language::Tha,
    Language::Tir,
    Language::Tlh,
    Language::Ton,
    Language::Tsn,
    Language::Tso,
    Language::Tuk,
    Language::Tur,
    Language::Twi,
    Language::Uig,
    Language::Ukr,
    Language::Und,
    Language::Urd,
    Language::Uzb,
    Language::Vec,
    Language::Ven,
    Language::Vie,
    Language::Vol,
    Language::War,
    Language::Wln,
    Language::Wol,
    Language::Wuu,
    Language::Xho,
    Language::Yid,
    Language::Yor,
    Language::Yue,
    Language::Zha,
    Language::Zho,
    Language::Zul,
    Language::Zxx,
];

/// The hash key of the perfect hash over the two-letter codes.
pub const TWO_TO_THREE_KEY: u64 = 12913932095322966823;

/// The displacements of the perfect hash over the two-letter codes.
pub const TWO_TO_THREE_DISPS: [(u32, u32); 37] = [
    (1, 92),
    (0, 0),
    (0, 0),
    (1, 52),
    (0, 110),
    (1, 6),
    (0, 1),
    (0, 12),
    (3, 173),
    (1, 18),
    (0, 0),
    (0, 28),
    (1, 4),
    (0, 20),
    (0, 38),
    (0, 43),
    (3, 80),
    (0, 0),
    (1, 69),
    (0, 147),
    (3, 7),
    (0, 92),
    (4, 73),
    (19, 137),
    (1, 113),
    (0, 0),
    (0, 78),
    (0, 25),
    (5, 149),
    (0, 128),
    (0, 0),
    (6, 149),
    (2, 32),
    (2, 128),
    (6, 147),
    (3, 150),
    (0, 3),
];

/// The two-letter codes with their languages, each at the place its code hashes to.
pub const TWO_TO_THREE: [(&'static str, Language); 184] = [
    ("br", Language::Bre),
    ("hu", Language::Hun),
    ("tr", Language::Tur),
    ("no", Language::Nor),
    ("kk", Language::Kaz),
    ("fo", Language::Fao),
    ("rm", Language::Roh),
    ("vo", Language::Vol),
    ("km", Language::Khm),
    ("ve", Language::Ven),
    ("si", Language::Sin),
    ("kw", Language::Cor),
    ("mr", Language::Mar),
    ("vi", Language::Vie),
    ("zu", Language::Zul),
    ("sr", Language::Srp),
    ("he", Language::Heb),
    ("ts", Language::Tso),
    ("ml", Language::Mal),
    ("is", Language::Isl),
    ("cy", Language::Cym),
    ("ln", Language::Lin),
    ("bo", Language::Bod),
    ("rw", Language::Kin),
    ("as", Language::Asm),
    ("uz", Language::Uzb),
    ("kl", Language::Kal),
    ("ht", Language::Hat),
    ("ka", Language::Kat),
    ("mi", Language::Mri),
    ("el", Language::Ell),
    ("pt", Language::Por),
    ("ar", Language::Ara),
    ("lu", Language::Lub),
    ("ab", Language::Abk),
    ("lg", Language::Lug),
    ("nv", Language::Nav),
    ("ss", Language::Ssw),
    ("az", Language::Aze),
    ("av", Language::Ava),
    ("fy", Language::Fry),
    ("an", Language::Arg),
    ("sw", Language::Swa),
    ("ik", Language::Ipk),
    ("rn", Language::Run),
    ("ja", Language::Jpn),
    ("zh", Language::Zho),
    ("fi", Language::Fin),
    ("gl", Language::Glg),
    ("ru", Language::Rus),
    ("ms", Language::Msa),
    ("ku", Language::Kur),
    ("kr", Language::Kau),
    ("sv", Language::Swe),
    ("nr", Language::Nbl),
    ("ng", Language::Ndo),
    ("hr", Language::Hrv),
    ("mk", Language::Mkd),
    ("nn", Language::Nno),
    ("eu", Language::Eus),
    ("ch", Language::Cha),
    ("ce", Language::Che),
    ("sl", Language::Slv),
    ("ne", Language::Nep),
    ("mg", Language::Mlg),
    ("tt", Language::Tat),
    ("sc", Language::Srd),
    ("kg", Language::Kon),
    ("sh", Language::Hbs),
    ("wa", Language::Wln),
    ("oj", Language::Oji),
    ("st", Language::Sot),
    ("li", Language::Lim),
    ("ha", Language::Hau),
    ("co", Language::Cos),
    ("my", Language::Mya),
    ("gn", Language::Grn),
    ("da", Language::Dan),
    ("bs", Language::Bos),
    ("ae", Language::Ave),
    ("oc", Language::Oci),
    ("ie", Language::Ile),
    ("hi", Language::Hin),
    ("lt", Language::Lit),
    ("sq", Language::Sqi),
    ("id", Language::Ind),
    ("te", Language::Tel),
    ("ps", Language::Pus),
    ("bg", Language::Bul),
    ("it", Language::Ita),
    ("tl", Language::Tgl),
    ("ta", Language::Tam),
    ("pi", Language::Pli),
    ("yo", Language::Yor),
    ("ho", Language::Hmo),
    ("to", Language::Ton),
    ("cv", Language::Chv),
    ("pl", Language::Pol),
    ("ba", Language::Bak),
    ("gv", Language::Glv),
    ("eo", Language::Epo),
    ("tw", Language::Twi),
    ("sn", Language::Sna),
    ("se", Language::Sme),
    ("fj", Language::Fij),
    ("cs", Language::Ces),
    ("hy", Language::Hye),
    ("mh", Language::Mah),
    ("ig", Language::Ibo),
    ("pa", Language::Pan),
    ("na", Language::Nau),
    ("nl", Language::Nld),
    ("es", Language::Spa),
    ("dv", Language::Div),
    ("om", Language::Orm),
    ("gu", Language::Guj),
    ("cu", Language::Chu),
    ("ca", Language::Cat),
    ("wo", Language::Wol),
    ("kv", Language::Kom),
    ("ay", Language::Aym),
    ("su", Language::Sun),
    ("sk", Language::Slk),
    ("lv", Language::Lav),
    ("de", Language::Deu),
    ("iu", Language::Iku),
    ("nd", Language::Nde),
    ("ky", Language::Kir),
    ("ii", Language::Iii),
    ("sd", Language::Snd),
    ("sm", Language::Smo),
    ("ty", Language::Tah),
    ("aa", Language::Aar),
    ("qu", Language::Que),
    ("lo", Language::Lao),
    ("fr", Language::Fra),
    ("sg", Language::Sag),
    ("af", Language::Afr),
    ("lb", Language::Ltz),
    ("so", Language::Som),
    ("am", Language::Amh),
    ("nb", Language::Nob),
    ("or", Language::Ori),
    ("ti", Language::Tir),
    ("ee", Language::Ewe),
    ("tg", Language::Tgk),
    ("yi", Language::Yid),
    ("xh", Language::Xho),
    ("fa", Language::Fas),
    ("et", Language::Est),
    ("tk", Language::Tuk),
    ("tn", Language::Tsn),
    ("sa", Language::San),
    ("be", Language::Bel),
    ("mn", Language::Mon),
    ("dz", Language::Dzo),
    ("th", Language::Tha),
    ("cr", Language::Cre),
    ("mt", Language::Mlt),
    ("ia", Language::Ina),
    ("bi", Language::Bis),
    ("ro", Language::Ron),
    ("ff", Language::Ful),
    ("uk", Language::Ukr),
    ("za", Language::Zha),
    ("ug", Language::Uig),
    ("ny", Language::Nya),
    ("ga", Language::Gle),
    ("ur", Language::Urd),
    ("io", Language::Ido),
    ("ko", Language::Kor),
    ("bn", Language::Ben),
    ("os", Language::Oss),
    ("la", Language::Lat),
    ("ks", Language::Kas),
    ("hz", Language::Her),
    ("kn", Language::Kan),
    ("ak", Language::Aka),
    ("kj", Language::Kua),
    ("ki", Language::Kik),
    ("jv", Language::Jav),
    ("bm", Language::Bam),
    ("gd", Language::Gla),
    ("en", Language::Eng),
];

/// The hash key of the perfect hash over the three-letter codes.
pub const THREE_TO_THREE_KEY: u64 = 12913932095322966823;

/// The displacements of the perfect hash over the three-letter codes.
pub const THREE_TO_THREE_DISPS: [(u32, u32); 48] = [
    (14, 111),
    (0, 4),
    (1, 222),
    (0, 122),
    (0, 52),
    (0, 0),
    (0, 3),
    (1, 2),
    (1, 1),
    (0, 8),
    (0, 31),
    (0, 0),
    (0, 24),
    (0, 3),
    (7, 9),
    (0, 0),
    (1, 206),
    (4, 118),
    (1, 51),
    (0, 222),
    (1, 5),
    (2, 19),
    (0, 32),
    (0, 104),
    (5, 95),
    (0, 98),
    (3, 26),
    (1, 47),
    (5, 210),
    (1, 51),
    (5, 200),
    (16, 166),
    (0, 88),
    (0, 27),
    (0, 141),
    (3, 185),
    (0, 55),
    (5, 200),
    (0, 111),
    (1, 3),
    (23, 223),
    (0, 41),
    (0, 229),
    (0, 3),
    (0, 85),
    (11, 46),
    (1, 19),
    (0, 2),
];

/// The three-letter codes with their languages, each at the place its code hashes to.
pub const THREE_TO_THREE: [(&'static str, Language); 238] = [
    ("tgk", Language::Tgk),
    ("ita", Language::Ita),
    ("smo", Language::Smo),
    ("goh", Language::Goh),
    ("slk", Language::Slk),
    ("bos", Language::Bos),
    ("lao", Language::Lao),
    ("chu", Language::Chu),
    ("twi", Language::Twi),
    ("deu", Language::Deu),
    ("cym", Language::Cym),
    ("mal", Language::Mal),
    ("yor", Language::Yor),
    ("aar", Language::Aar),
    ("grc", Language::Grc),
    ("iku", Language::Iku),
    ("her", Language::Her),
    ("akk", Language::Akk),
    ("hmo", Language::Hmo),
    ("ltz", Language::Ltz),
    ("swa", Language::Swa),
    ("kur", Language::Kur),
    ("lvs", Language::Lvs),
    ("gla", Language::Gla),
    ("kau", Language::Kau),
    ("pus", Language::Pus),
    ("arg", Language::Arg),
    ("lav", Language::Lav),
    ("chr", Language::Chr),
    ("pal", Language::Pal),
    ("ell", Language::Ell),
    ("ido", Language::Ido),
    ("gsw", Language::Gsw),
    ("nav", Language::Nav),
    ("ibo", Language::Ibo),
    ("lat", Language::Lat),
    ("tso", Language::Tso),
    ("mis", Language::Mis),
    ("wuu", Language::Wuu),
    ("kik", Language::Kik),
    ("mri", Language::Mri),
    ("glv", Language::Glv),
    ("kin", Language::Kin),
    ("roh", Language::Roh),
    ("bul", Language::Bul),
    ("rus", Language::Rus),
    ("sco", Language::Sco),
    ("dsb", Language::Dsb),
    ("eng", Language::Eng),
    ("dzo", Language::Dzo),
    ("ina", Language::Ina),
    ("frm", Language::Frm),
    ("nau", Language::Nau),
    ("bre", Language::Bre),
    ("bam", Language::Bam),
    ("fas", Language::Fas),
    ("mlg", Language::Mlg),
    ("sqi", Language::Sqi),
    ("ast", Language::Ast),
    ("kab", Language::Kab),
    ("san", Language::San),
    ("oci", Language::Oci),
    ("guj", Language::Guj),
    ("fur", Language::Fur),
    ("xho", Language::Xho),
    ("slv", Language::Slv),
    ("wol", Language::Wol),
    ("spa", Language::Spa),
    ("ssw", Language::Ssw),
    ("ori", Language::Ori),
    ("eus", Language::Eus),
    ("tlh", Language::Tlh),
    ("mar", Language::Mar),
    ("sot", Language::Sot),
    ("kua", Language::Kua),
    ("lin", Language::Lin),
    ("bod", Language::Bod),
    ("gha", Language::Gha),
    ("gmh", Language::Gmh),
    ("cha", Language::Cha),
    ("bak", Language::Bak),
    ("zxx", Language::Zxx),
    ("que", Language::Que),
    ("ben", Language::Ben),
    ("gle", Language::Gle),
    ("war", Language::War),
    ("lug", Language::Lug),
    ("ces", Language::Ces),
    ("cre", Language::Cre),
    ("mon", Language::Mon),
    ("scn", Language::Scn),
    ("snd", Language::Snd),
    ("srd", Language::Srd),
    ("tel", Language::Tel),
    ("hin", Language::Hin),
    ("grn", Language::Grn),
    ("pli", Language::Pli),
    ("oji", Language::Oji),
    ("ipk", Language::Ipk),
    ("fry", Language::Fry),
    ("tah", Language::Tah),
    ("sag", Language::Sag),
    ("hit", Language::Hit),
    ("sin", Language::Sin),
    ("lzh", Language::Lzh),
    ("arb", Language::Arb),
    ("aze", Language::Aze),
    ("afr", Language::Afr),
    ("tam", Language::Tam),
    ("fij", Language::Fij),
    ("nde", Language::Nde),
    ("srp", Language::Srp),
    ("fao", Language::Fao),
    ("orm", Language::Orm),
    ("uig", Language::Uig),
    ("heb", Language::Heb),
    ("sun", Language::Sun),
    ("mya", Language::Mya),
    ("kom", Language::Kom),
    ("run", Language::Run),
    ("jav", Language::Jav),
    ("ekk", Language::Ekk),
    ("nob", Language::Nob),
    ("urd", Language::Urd),
    ("hsb", Language::Hsb),
    ("hbs", Language::Hbs),
    ("ang", Language::Ang),
    ("tsn", Language::Tsn),
    ("vol", Language::Vol),
    ("ara", Language::Ara),
    ("hye", Language::Hye),
    ("pol", Language::Pol),
    ("ron", Language::Ron),
    ("peo", Language::Peo),
    ("hau", Language::Hau),
    ("ave", Language::Ave),
    ("nld", Language::Nld),
    ("ton", Language::Ton),
    ("div", Language::Div),
    ("nep", Language::Nep),
    ("ewe", Language::Ewe),
    ("kan", Language::Kan),
    ("non", Language::Non),
    ("ceb", Language::Ceb),
    ("mul", Language::Mul),
    ("ilo", Language::Ilo),
    ("fro", Language::Fro),
    ("kir", Language::Kir),
    ("pes", Language::Pes),
    ("sga", Language::Sga),
    ("tir", Language::Tir),
    ("sna", Language::Sna),
    ("oss", Language::Oss),
    ("nor", Language::Nor),
    ("abk", Language::Abk),
    ("nbl", Language::Nbl),
    ("sux", Language::Sux),
    ("ven", Language::Ven),
    ("por", Language::Por),
    ("fin", Language::Fin),
    ("tur", Language::Tur),
    ("tuk", Language::Tuk),
    ("mga", Language::Mga),
    ("iii", Language::Iii),
    ("hrv", Language::Hrv),
    ("sme", Language::Sme),
    ("egy", Language::Egy),
    ("khm", Language::Khm),
    ("nds", Language::Nds),
    ("zha", Language::Zha),
    ("tat", Language::Tat),
    ("uzb", Language::Uzb),
    ("ava", Language::Ava),
    ("lub", Language::Lub),
    ("fil", Language::Fil),
    ("mah", Language::Mah),
    ("aka", Language::Aka),
    ("got", Language::Got),
    ("arc", Language::Arc),
    ("wln", Language::Wln),
    ("mlt", Language::Mlt),
    ("cop", Language::Cop),
    ("zho", Language::Zho),
    ("vec", Language::Vec),
    ("mkd", Language::Mkd),
    ("amh", Language::Amh),
    ("kor", Language::Kor),
    ("cos", Language::Cos),
    ("nya", Language::Nya),
    ("aym", Language::Aym),
    ("epo", Language::Epo),
    ("jbo", Language::Jbo),
    ("ile", Language::Ile),
    ("hak", Language::Hak),
    ("isl", Language::Isl),
    ("kas", Language::Kas),
    ("enm", Language::Enm),
    ("hun", Language::Hun),
    ("che", Language::Che),
    ("kon", Language::Kon),
    ("hat", Language::Hat),
    ("tha", Language::Tha),
    ("msa", Language::Msa),
    ("yid", Language::Yid),
    ("swe", Language::Swe),
    ("bis", Language::Bis),
    ("cmn", Language::Cmn),
    ("ful", Language::Ful),
    ("kat", Language::Kat),
    ("ind", Language::Ind),
    ("fra", Language::Fra),
    ("haw", Language::Haw),
    ("est", Language::Est),
    ("chv", Language::Chv),
    ("som", Language::Som),
    ("zul", Language::Zul),
    ("vie", Language::Vie),
    ("yue", Language::Yue),
    ("swh", Language::Swh),
    ("ota", Language::Ota),
    ("nno", Language::Nno),
    ("lit", Language::Lit),
    ("und", Language::Und),
    ("glg", Language::Glg),
    ("asm", Language::Asm),
    ("lim", Language::Lim),
    ("dan", Language::Dan),
    ("pan", Language::Pan),
    ("nan", Language::Nan),
    ("cat", Language::Cat),
    ("ukr", Language::Ukr),
    ("kal", Language::Kal),
    ("kaz", Language::Kaz),
    ("bel", Language::Bel),
    ("cor", Language::Cor),
    ("tgl", Language::Tgl),
    ("jpn", Language::Jpn),
    ("ndo", Language::Ndo),
];

/// For each pair of letters, in the order `aa`, `ab`, ... `zz`: one more than
/// the index of the record with that two-letter code, or 0 where no record
/// has it.
pub const TWO_LETTER_SLOTS: [u16; 676] = [
    1, 2, 0, 0, 15, 3, 0, 0, 0, 0, 4, 0, 6, 11, 0, 0, 0, 8, 12, 0, 0, 14, 0, 0, 16, 17,
    18, 0, 0, 0, 20, 0, 26, 0, 22, 0, 0, 0, 19, 21, 23, 0, 0, 25, 24, 0, 0, 0, 0, 0, 0, 0,
    27, 0, 0, 0, 31, 0, 0, 30, 0, 0, 0, 0, 0, 0, 38, 0, 0, 39, 29, 0, 33, 34, 0, 0, 40, 0,
    41, 0, 0, 0, 42, 0, 0, 0, 0, 0, 0, 0, 0, 0, 0, 0, 0, 0, 0, 0, 0, 43, 0, 0, 0, 45,
    0, 0, 0, 0, 54, 0, 0, 0, 0, 0, 0, 48, 0, 49, 51, 0, 0, 0, 193, 52, 53, 0, 0, 0, 0, 0,
    56, 0, 0, 0, 0, 64, 0, 0, 59, 57, 0, 0, 0, 0, 55, 0, 0, 60, 0, 0, 0, 0, 0, 0, 63, 0,
    68, 0, 0, 67, 0, 0, 0, 0, 0, 0, 0, 69, 0, 75, 0, 0, 0, 0, 0, 0, 77, 70, 0, 0, 0, 0,
    80, 0, 0, 0, 83, 0, 0, 0, 85, 0, 0, 0, 0, 0, 87, 0, 0, 88, 0, 79, 90, 0, 0, 0, 91, 84,
    98, 0, 0, 99, 96, 0, 92, 0, 94, 0, 100, 0, 0, 0, 93, 0, 0, 0, 101, 102, 95, 0, 0, 0, 0, 0,
    105, 0, 0, 0, 0, 0, 0, 0, 0, 0, 0, 0, 0, 0, 0, 0, 0, 0, 0, 0, 0, 103, 0, 0, 0, 0,
    110, 0, 0, 0, 0, 0, 118, 0, 114, 120, 112, 107, 113, 108, 119, 0, 0, 111, 109, 0, 121, 117, 37, 0, 116, 0,
    123, 128, 0, 0, 0, 0, 130, 0, 125, 0, 0, 0, 0, 126, 122, 0, 0, 0, 0, 127, 129, 124, 0, 0, 0, 0,
    0, 0, 0, 0, 0, 0, 139, 133, 142, 0, 138, 134, 0, 141, 0, 0, 0, 135, 143, 140, 0, 0, 0, 0, 145, 0,
    147, 156, 0, 150, 153, 0, 151, 0, 0, 0, 0, 154, 0, 155, 158, 0, 0, 149, 0, 0, 0, 148, 0, 0, 159, 0,
    0, 0, 160, 0, 0, 0, 0, 0, 0, 161, 0, 0, 163, 0, 0, 0, 0, 162, 164, 0, 0, 0, 0, 0, 0, 0,
    167, 0, 0, 0, 0, 0, 0, 0, 170, 0, 0, 171, 0, 0, 0, 0, 0, 0, 173, 172, 0, 0, 0, 0, 0, 0,
    0, 0, 0, 0, 0, 0, 0, 0, 0, 0, 0, 0, 0, 0, 0, 0, 0, 0, 0, 0, 174, 0, 0, 0, 0, 0,
    0, 0, 0, 0, 0, 0, 0, 0, 0, 0, 0, 0, 175, 177, 176, 0, 0, 0, 0, 0, 178, 0, 115, 0, 0, 0,
    180, 0, 195, 190, 187, 0, 179, 82, 184, 0, 185, 186, 188, 189, 191, 0, 194, 196, 197, 192, 198, 201, 200, 0, 0, 0,
    204, 0, 0, 0, 206, 0, 207, 209, 210, 0, 215, 208, 0, 213, 212, 0, 0, 216, 214, 205, 0, 0, 217, 0, 203, 0,
    0, 0, 0, 0, 0, 0, 218, 0, 0, 0, 219, 0, 0, 0, 0, 0, 0, 221, 0, 0, 0, 0, 0, 0, 0, 222,
    0, 0, 0, 0, 224, 0, 0, 0, 225, 0, 0, 0, 0, 0, 226, 0, 0, 0, 0, 0, 0, 0, 0, 0, 0, 0,
    228, 0, 0, 0, 0, 0, 0, 0, 0, 0, 0, 0, 0, 0, 229, 0, 0, 0, 0, 0, 0, 0, 0, 0, 0, 0,
    0, 0, 0, 0, 0, 0, 0, 231, 0, 0, 0, 0, 0, 0, 0, 0, 0, 0, 0, 0, 0, 0, 0, 0, 0, 0,
    0, 0, 0, 0, 0, 0, 0, 0, 232, 0, 0, 0, 0, 0, 233, 0, 0, 0, 0, 0, 0, 0, 0, 0, 0, 0,
    235, 0, 0, 0, 0, 0, 0, 236, 0, 0, 0, 0, 0, 0, 0, 0, 0, 0, 0, 0, 237, 0, 0, 0, 0, 0,
];

} // verus!
