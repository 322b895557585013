use isolang::compiler::{compile, generate};
use isolang::table::{
    THREE_TO_THREE, THREE_TO_THREE_DISPS, THREE_TO_THREE_KEY, TWO_LETTER_SLOTS, TWO_TO_THREE,
    TWO_TO_THREE_DISPS, TWO_TO_THREE_KEY,
};
use isolang::{languages, Language};

const ISO_TABLE: &str = "\
Id\tPart2B\tPart2T\tPart1\tScope\tLanguage_Type\tRef_Name\tComment\n\
aar\t\t\taa\tI\tL\tAfar\t\n\
abk\t\t\tab\tI\tL\tAbkhazian\t\n\
afr\t\t\taf\tI\tL\tAfrikaans\t\n\
aka\t\t\tak\tI\tL\tAkan\t\n\
akk\t\t\t\tI\tL\tAkkadian\t\n\
amh\t\t\tam\tI\tL\tAmharic\t\n\
ang\t\t\t\tI\tL\tOld English (ca. 450-1100)\t\n\
ara\t\t\tar\tI\tL\tArabic\t\n\
arb\t\t\t\tI\tL\tStandard Arabic\t\n\
arc\t\t\t\tI\tL\tOfficial Aramaic (700-300 BCE)\t\n\
arg\t\t\tan\tI\tL\tAragonese\t\n\
asm\t\t\tas\tI\tL\tAssamese\t\n\
ast\t\t\t\tI\tL\tAsturian\t\n\
ava\t\t\tav\tI\tL\tAvaric\t\n\
ave\t\t\tae\tI\tL\tAvestan\t\n\
aym\t\t\tay\tI\tL\tAymara\t\n\
aze\t\t\taz\tI\tL\tAzerbaijani\t\n\
bak\t\t\tba\tI\tL\tBashkir\t\n\
bam\t\t\tbm\tI\tL\tBambara\t\n\
bel\t\t\tbe\tI\tL\tBelarusian\t\n\
ben\t\t\tbn\tI\tL\tBengali\t\n\
bis\t\t\tbi\tI\tL\tBislama\t\n\
bod\t\t\tbo\tI\tL\tTibetan\t\n\
bos\t\t\tbs\tI\tL\tBosnian\t\n\
bre\t\t\tbr\tI\tL\tBreton\t\n\
bul\t\t\tbg\tI\tL\tBulgarian\t\n\
cat\t\t\tca\tI\tL\tCatalan\t\n\
ceb\t\t\t\tI\tL\tCebuano\t\n\
ces\t\t\tcs\tI\tL\tCzech\t\n\
cha\t\t\tch\tI\tL\tChamorro\t\n\
che\t\t\tce\tI\tL\tChechen\t\n\
chr\t\t\t\tI\tL\tCherokee\t\n\
chu\t\t\tcu\tI\tL\tChurch Slavic\t\n\
chv\t\t\tcv\tI\tL\tChuvash\t\n\
cmn\t\t\t\tI\tL\tMandarin Chinese\t\n\
cop\t\t\t\tI\tL\tCoptic\t\n\
cor\t\t\tkw\tI\tL\tCornish\t\n\
cos\t\t\tco\tI\tL\tCorsican\t\n\
cre\t\t\tcr\tI\tL\tCree\t\n\
cym\t\t\tcy\tI\tL\tWelsh\t\n\
dan\t\t\tda\tI\tL\tDanish\t\n\
deu\t\t\tde\tI\tL\tGerman\t\n\
div\t\t\tdv\tI\tL\tDhivehi\t\n\
dsb\t\t\t\tI\tL\tLower Sorbian\t\n\
dzo\t\t\tdz\tI\tL\tDzongkha\t\n\
egy\t\t\t\tI\tL\tEgyptian (Ancient)\t\n\
ekk\t\t\t\tI\tL\tStandard Estonian\t\n\
ell\t\t\tel\tI\tL\tModern Greek (1453-)\t\n\
eng\t\t\ten\tI\tL\tEnglish\t\n\
enm\t\t\t\tI\tL\tMiddle English (1100-1500)\t\n\
epo\t\t\teo\tI\tL\tEsperanto\t\n\
est\t\t\tet\tI\tL\tEstonian\t\n\
eus\t\t\teu\tI\tL\tBasque\t\n\
ewe\t\t\tee\tI\tL\tEwe\t\n\
fao\t\t\tfo\tI\tL\tFaroese\t\n\
fas\t\t\tfa\tI\tL\tPersian\t\n\
fij\t\t\tfj\tI\tL\tFijian\t\n\
fil\t\t\t\tI\tL\tFilipino\t\n\
fin\t\t\tfi\tI\tL\tFinnish\t\n\
fra\t\t\tfr\tI\tL\tFrench\t\n\
frm\t\t\t\tI\tL\tMiddle French (ca. 1400-1600)\t\n\
fro\t\t\t\tI\tL\tOld French (842-ca. 1400)\t\n\
fry\t\t\tfy\tI\tL\tWestern Frisian\t\n\
ful\t\t\tff\tI\tL\tFulah\t\n\
fur\t\t\t\tI\tL\tFriulian\t\n\
gha\t\t\t\tI\tL\tGhadamès\t\n\
gla\t\t\tgd\tI\tL\tScottish Gaelic\t\n\
gle\t\t\tga\tI\tL\tIrish\t\n\
glg\t\t\tgl\tI\tL\tGalician\t\n\
glv\t\t\tgv\tI\tL\tManx\t\n\
gmh\t\t\t\tI\tL\tMiddle High German (ca. 1050-1500)\t\n\
goh\t\t\t\tI\tL\tOld High German (ca. 750-1050)\t\n\
got\t\t\t\tI\tL\tGothic\t\n\
grc\t\t\t\tI\tL\tAncient Greek (to 1453)\t\n\
grn\t\t\tgn\tI\tL\tGuarani\t\n\
gsw\t\t\t\tI\tL\tSwiss German\t\n\
guj\t\t\tgu\tI\tL\tGujarati\t\n\
hak\t\t\t\tI\tL\tHakka Chinese\t\n\
hat\t\t\tht\tI\tL\tHaitian\t\n\
hau\t\t\tha\tI\tL\tHausa\t\n\
haw\t\t\t\tI\tL\tHawaiian\t\n\
hbs\t\t\tsh\tI\tL\tSerbo-Croatian\t\n\
heb\t\t\the\tI\tL\tHebrew\t\n\
her\t\t\thz\tI\tL\tHerero\t\n\
hin\t\t\thi\tI\tL\tHindi\t\n\
hit\t\t\t\tI\tL\tHittite\t\n\
hmo\t\t\tho\tI\tL\tHiri Motu\t\n\
hrv\t\t\thr\tI\tL\tCroatian\t\n\
hsb\t\t\t\tI\tL\tUpper Sorbian\t\n\
hun\t\t\thu\tI\tL\tHungarian\t\n\
hye\t\t\thy\tI\tL\tArmenian\t\n\
ibo\t\t\tig\tI\tL\tIgbo\t\n\
ido\t\t\tio\tI\tL\tIdo\t\n\
iii\t\t\tii\tI\tL\tSichuan Yi\t\n\
iku\t\t\tiu\tI\tL\tInuktitut\t\n\
ile\t\t\tie\tI\tL\tInterlingue\t\n\
ilo\t\t\t\tI\tL\tIloko\t\n\
ina\t\t\tia\tI\tL\tInterlingua (International Auxiliary Language Association)\t\n\
ind\t\t\tid\tI\tL\tIndonesian\t\n\
ipk\t\t\tik\tI\tL\tInupiaq\t\n\
isl\t\t\tis\tI\tL\tIcelandic\t\n\
ita\t\t\tit\tI\tL\tItalian\t\n\
jav\t\t\tjv\tI\tL\tJavanese\t\n\
jbo\t\t\t\tI\tL\tLojban\t\n\
jpn\t\t\tja\tI\tL\tJapanese\t\n\
kab\t\t\t\tI\tL\tKabyle\t\n\
kal\t\t\tkl\tI\tL\tKalaallisut\t\n\
kan\t\t\tkn\tI\tL\tKannada\t\n\
kas\t\t\tks\tI\tL\tKashmiri\t\n\
kat\t\t\tka\tI\tL\tGeorgian\t\n\
kau\t\t\tkr\tI\tL\tKanuri\t\n\
kaz\t\t\tkk\tI\tL\tKazakh\t\n\
khm\t\t\tkm\tI\tL\tKhmer\t\n\
kik\t\t\tki\tI\tL\tKikuyu\t\n\
kin\t\t\trw\tI\tL\tKinyarwanda\t\n\
kir\t\t\tky\tI\tL\tKirghiz\t\n\
kom\t\t\tkv\tI\tL\tKomi\t\n\
kon\t\t\tkg\tI\tL\tKongo\t\n\
kor\t\t\tko\tI\tL\tKorean\t\n\
kua\t\t\tkj\tI\tL\tKuanyama\t\n\
kur\t\t\tku\tI\tL\tKurdish\t\n\
lao\t\t\tlo\tI\tL\tLao\t\n\
lat\t\t\tla\tI\tL\tLatin\t\n\
lav\t\t\tlv\tI\tL\tLatvian\t\n\
lim\t\t\tli\tI\tL\tLimburgan\t\n\
lin\t\t\tln\tI\tL\tLingala\t\n\
lit\t\t\tlt\tI\tL\tLithuanian\t\n\
ltz\t\t\tlb\tI\tL\tLuxembourgish\t\n\
lub\t\t\tlu\tI\tL\tLuba-Katanga\t\n\
lug\t\t\tlg\tI\tL\tGanda\t\n\
lvs\t\t\t\tI\tL\tStandard Latvian\t\n\
lzh\t\t\t\tI\tL\tLiterary Chinese\t\n\
mah\t\t\tmh\tI\tL\tMarshallese\t\n\
mal\t\t\tml\tI\tL\tMalayalam\t\n\
mar\t\t\tmr\tI\tL\tMarathi\t\n\
mga\t\t\t\tI\tL\tMiddle Irish (900-1200)\t\n\
mis\t\t\t\tI\tL\tUncoded languages\t\n\
mkd\t\t\tmk\tI\tL\tMacedonian\t\n\
mlg\t\t\tmg\tI\tL\tMalagasy\t\n\
mlt\t\t\tmt\tI\tL\tMaltese\t\n\
mon\t\t\tmn\tI\tL\tMongolian\t\n\
mri\t\t\tmi\tI\tL\tMaori\t\n\
msa\t\t\tms\tI\tL\tMalay (macrolanguage)\t\n\
mul\t\t\t\tI\tL\tMultiple languages\t\n\
mya\t\t\tmy\tI\tL\tBurmese\t\n\
nan\t\t\t\tI\tL\tMin Nan Chinese\t\n\
nau\t\t\tna\tI\tL\tNauru\t\n\
nav\t\t\tnv\tI\tL\tNavajo\t\n\
nbl\t\t\tnr\tI\tL\tSouth Ndebele\t\n\
nde\t\t\tnd\tI\tL\tNorth Ndebele\t\n\
ndo\t\t\tng\tI\tL\tNdonga\t\n\
nds\t\t\t\tI\tL\tLow German\t\n\
nep\t\t\tne\tI\tL\tNepali (macrolanguage)\t\n\
nld\t\t\tnl\tI\tL\tDutch\t\n\
nno\t\t\tnn\tI\tL\tNorwegian Nynorsk\t\n\
nob\t\t\tnb\tI\tL\tNorwegian Bokmål\t\n\
non\t\t\t\tI\tL\tOld Norse\t\n\
nor\t\t\tno\tI\tL\tNorwegian\t\n\
nya\t\t\tny\tI\tL\tNyanja\t\n\
oci\t\t\toc\tI\tL\tOccitan (post 1500)\t\n\
oji\t\t\toj\tI\tL\tOjibwa\t\n\
ori\t\t\tor\tI\tL\tOriya (macrolanguage)\t\n\
orm\t\t\tom\tI\tL\tOromo\t\n\
oss\t\t\tos\tI\tL\tOssetian\t\n\
ota\t\t\t\tI\tL\tOttoman Turkish (1500-1928)\t\n\
pal\t\t\t\tI\tL\tPahlavi\t\n\
pan\t\t\tpa\tI\tL\tPanjabi\t\n\
peo\t\t\t\tI\tL\tOld Persian (ca. 600-400 B.C.)\t\n\
pes\t\t\t\tI\tL\tIranian Persian\t\n\
pli\t\t\tpi\tI\tL\tPali\t\n\
pol\t\t\tpl\tI\tL\tPolish\t\n\
por\t\t\tpt\tI\tL\tPortuguese\t\n\
pus\t\t\tps\tI\tL\tPushto\t\n\
que\t\t\tqu\tI\tL\tQuechua\t\n\
roh\t\t\trm\tI\tL\tRomansh\t\n\
ron\t\t\tro\tI\tL\tRomanian\t\n\
run\t\t\trn\tI\tL\tRundi\t\n\
rus\t\t\tru\tI\tL\tRussian\t\n\
sag\t\t\tsg\tI\tL\tSango\t\n\
san\t\t\tsa\tI\tL\tSanskrit\t\n\
scn\t\t\t\tI\tL\tSicilian\t\n\
sco\t\t\t\tI\tL\tScots\t\n\
sga\t\t\t\tI\tL\tOld Irish (to 900)\t\n\
sin\t\t\tsi\tI\tL\tSinhala\t\n\
slk\t\t\tsk\tI\tL\tSlovak\t\n\
slv\t\t\tsl\tI\tL\tSlovenian\t\n\
sme\t\t\tse\tI\tL\tNorthern Sami\t\n\
smo\t\t\tsm\tI\tL\tSamoan\t\n\
sna\t\t\tsn\tI\tL\tShona\t\n\
snd\t\t\tsd\tI\tL\tSindhi\t\n\
som\t\t\tso\tI\tL\tSomali\t\n\
sot\t\t\tst\tI\tL\tSouthern Sotho\t\n\
spa\t\t\tes\tI\tL\tSpanish\t\n\
sqi\t\t\tsq\tI\tL\tAlbanian\t\n\
srd\t\t\tsc\tI\tL\tSardinian\t\n\
srp\t\t\tsr\tI\tL\tSerbian\t\n\
ssw\t\t\tss\tI\tL\tSwati\t\n\
sun\t\t\tsu\tI\tL\tSundanese\t\n\
sux\t\t\t\tI\tL\tSumerian\t\n\
swa\t\t\tsw\tI\tL\tSwahili (macrolanguage)\t\n\
swe\t\t\tsv\tI\tL\tSwedish\t\n\
swh\t\t\t\tI\tL\tSwahili (individual language)\t\n\
tah\t\t\tty\tI\tL\tTahitian\t\n\
tam\t\t\tta\tI\tL\tTamil\t\n\
tat\t\t\ttt\tI\tL\tTatar\t\n\
tel\t\t\tte\tI\tL\tTelugu\t\n\
tgk\t\t\ttg\tI\tL\tTajik\t\n\
tgl\t\t\ttl\tI\tL\tTagalog\t\n\
tha\t\t\tth\tI\tL\tThai\t\n\
tir\t\t\tti\tI\tL\tTigrinya\t\n\
tlh\t\t\t\tI\tL\tKlingon\t\n\
ton\t\t\tto\tI\tL\tTonga (Tonga Islands)\t\n\
tsn\t\t\ttn\tI\tL\tTswana\t\n\
tso\t\t\tts\tI\tL\tTsonga\t\n\
tuk\t\t\ttk\tI\tL\tTurkmen\t\n\
tur\t\t\ttr\tI\tL\tTurkish\t\n\
twi\t\t\ttw\tI\tL\tTwi\t\n\
uig\t\t\tug\tI\tL\tUighur\t\n\
ukr\t\t\tuk\tI\tL\tUkrainian\t\n\
und\t\t\t\tI\tL\tUndetermined\t\n\
urd\t\t\tur\tI\tL\tUrdu\t\n\
uzb\t\t\tuz\tI\tL\tUzbek\t\n\
vec\t\t\t\tI\tL\tVenetian\t\n\
ven\t\t\tve\tI\tL\tVenda\t\n\
vie\t\t\tvi\tI\tL\tVietnamese\t\n\
vol\t\t\tvo\tI\tL\tVolapük\t\n\
war\t\t\t\tI\tL\tWaray (Philippines)\t\n\
wln\t\t\twa\tI\tL\tWalloon\t\n\
wol\t\t\two\tI\tL\tWolof\t\n\
wuu\t\t\t\tI\tL\tWu Chinese\t\n\
xho\t\t\txh\tI\tL\tXhosa\t\n\
yid\t\t\tyi\tI\tL\tYiddish\t\n\
yor\t\t\tyo\tI\tL\tYoruba\t\n\
yue\t\t\t\tI\tL\tYue Chinese\t\n\
zha\t\t\tza\tI\tL\tZhuang\t\n\
zho\t\t\tzh\tI\tL\tChinese\t\n\
zul\t\t\tzu\tI\tL\tZulu\t\n\
zxx\t\t\t\tI\tL\tNo linguistic content\t\n\
";

const AUTONYMS_TABLE: &str = "\
code\tpart1\tname\tautonym\n\
aar\taa\tAfar\tAfaraf\n\
abk\tab\tAbkhazian\tАҧсуа\n\
afr\taf\tAfrikaans\tAfrikaans\n\
aka\tak\tAkan\tAkan\n\
amh\tam\tAmharic\tአማርኛ\n\
ara\tar\tArabic\tالعربية\n\
arg\tan\tAragonese\taragonés\n\
asm\tas\tAssamese\tঅসমীয়া\n\
ast\t\tAsturian\tasturianu\n\
ava\tav\tAvaric\tавар мацӀ\n\
ave\tae\tAvestan\tavesta\n\
aym\tay\tAymara\taymar aru\n\
aze\taz\tAzerbaijani\tazərbaycan dili\n\
bak\tba\tBashkir\tбашҡорт теле\n\
bam\tbm\tBambara\tbamanankan\n\
bel\tbe\tBelarusian\tбеларуская\n\
ben\tbn\tBengali\tবাংলা\n\
bis\tbi\tBislama\tBislama\n\
bod\tbo\tTibetan\tབོད་ཡིག\n\
bos\tbs\tBosnian\tbosanski jezik\n\
bre\tbr\tBreton\tbrezhoneg\n\
bul\tbg\tBulgarian\tбългарски\n\
cat\tca\tCatalan\tcatalà\n\
ceb\t\tCebuano\tCebuano\n\
ces\tcs\tCzech\tčeština\n\
cha\tch\tChamorro\tChamoru\n\
che\tce\tChechen\tнохчийн мотт\n\
chr\t\tCherokee\tᏣᎳᎩ\n\
chu\tcu\tChurch Slavic\tѩзыкъ словѣньскъ\n\
chv\tcv\tChuvash\tчӑваш чӗлхи\n\
cmn\t\tMandarin Chinese\t官話\n\
cor\tkw\tCornish\tKernewek\n\
cos\tco\tCorsican\tcorsu\n\
cre\tcr\tCree\tᓀᐦᐃᔭᐍᐏᐣ\n\
cym\tcy\tWelsh\tCymraeg\n\
dan\tda\tDanish\tdansk\n\
deu\tde\tGerman\tDeutsch\n\
div\tdv\tDhivehi\tދިވެހި\n\
dsb\t\tLower Sorbian\tdolnoserbski\n\
dzo\tdz\tDzongkha\tརྫོང་ཁ\n\
ell\tel\tModern Greek\tελληνικά\n\
eng\ten\tEnglish\tEnglish\n\
epo\teo\tEsperanto\tEsperanto\n\
est\tet\tEstonian\teesti\n\
eus\teu\tBasque\teuskara\n\
ewe\tee\tEwe\tEʋegbe\n\
fao\tfo\tFaroese\tføroyskt\n\
fas\tfa\tPersian\tفارسی\n\
fij\tfj\tFijian\tvosa Vakaviti\n\
fil\t\tFilipino\tFilipino\n\
fin\tfi\tFinnish\tsuomi\n\
fra\tfr\tFrench\tfrançais\n\
fry\tfy\tWestern Frisian\tFrysk\n\
ful\tff\tFulah\tFulfulde\n\
fur\t\tFriulian\tfurlan\n\
gla\tgd\tScottish Gaelic\tGàidhlig\n\
gle\tga\tIrish\tGaeilge\n\
glg\tgl\tGalician\tgalego\n\
glv\tgv\tManx\tGaelg\n\
grn\tgn\tGuarani\tAvañe'ẽ\n\
gsw\t\tSwiss German\tSchwiizerdütsch\n\
guj\tgu\tGujarati\tગુજરાતી\n\
hat\tht\tHaitian\tKreyòl ayisyen\n\
hau\tha\tHausa\tHausa\n\
haw\t\tHawaiian\tʻŌlelo Hawaiʻi\n\
hbs\tsh\tSerbo-Croatian\tsrpskohrvatski\n\
heb\the\tHebrew\tעברית\n\
her\thz\tHerero\tOtjiherero\n\
hin\thi\tHindi\tहिन्दी\n\
hmo\tho\tHiri Motu\tHiri Motu\n\
hrv\thr\tCroatian\thrvatski\n\
hsb\t\tUpper Sorbian\thornjoserbsce\n\
hun\thu\tHungarian\tmagyar\n\
hye\thy\tArmenian\tՀայերեն\n\
ibo\tig\tIgbo\tAsụsụ Igbo\n\
ido\tio\tIdo\tIdo\n\
iii\tii\tSichuan Yi\tꆈꌠ꒿\n\
iku\tiu\tInuktitut\tᐃᓄᒃᑎᑐᑦ\n\
ile\tie\tInterlingue\tInterlingue\n\
ina\tia\tInterlingua\tInterlingua\n\
ind\tid\tIndonesian\tBahasa Indonesia\n\
ipk\tik\tInupiaq\tIñupiaq\n\
isl\tis\tIcelandic\tíslenska\n\
ita\tit\tItalian\titaliano\n\
jav\tjv\tJavanese\tbasa Jawa\n\
jbo\t\tLojban\tla .lojban.\n\
jpn\tja\tJapanese\t日本語\n\
kab\t\tKabyle\tTaqbaylit\n\
kal\tkl\tKalaallisut\tkalaallisut\n\
kan\tkn\tKannada\tಕನ್ನಡ\n\
kas\tks\tKashmiri\tकश्मीरी\n\
kat\tka\tGeorgian\tქართული\n\
kau\tkr\tKanuri\tKanuri\n\
kaz\tkk\tKazakh\tқазақ тілі\n\
khm\tkm\tKhmer\tខ្មែរ\n\
kik\tki\tKikuyu\tGĩkũyũ\n\
kin\trw\tKinyarwanda\tIkinyarwanda\n\
kir\tky\tKirghiz\tКыргызча\n\
kom\tkv\tKomi\tкоми кыв\n\
kon\tkg\tKongo\tKikongo\n\
kor\tko\tKorean\t한국어\n\
kua\tkj\tKuanyama\tKuanyama\n\
kur\tku\tKurdish\tKurdî\n\
lao\tlo\tLao\tພາສາລາວ\n\
lat\tla\tLatin\tlatine\n\
lav\tlv\tLatvian\tlatviešu valoda\n\
lim\tli\tLimburgan\tLimburgs\n\
lin\tln\tLingala\tLingála\n\
lit\tlt\tLithuanian\tlietuvių kalba\n\
ltz\tlb\tLuxembourgish\tLëtzebuergesch\n\
lub\tlu\tLuba-Katanga\tTshiluba\n\
lug\tlg\tGanda\tLuganda\n\
mah\tmh\tMarshallese\tKajin M̧ajeļ\n\
mal\tml\tMalayalam\tമലയാളം\n\
mar\tmr\tMarathi\tमराठी\n\
mkd\tmk\tMacedonian\tмакедонски јазик\n\
mlg\tmg\tMalagasy\tfiteny malagasy\n\
mlt\tmt\tMaltese\tMalti\n\
mon\tmn\tMongolian\tмонгол\n\
mri\tmi\tMaori\tte reo Māori\n\
msa\tms\tMalay\tbahasa Melayu\n\
mya\tmy\tBurmese\tဗမာစာ\n\
nau\tna\tNauru\tEkakairũ Naoero\n\
nav\tnv\tNavajo\tDiné bizaad\n\
nbl\tnr\tSouth Ndebele\tisiNdebele\n\
nde\tnd\tNorth Ndebele\tisiNdebele\n\
ndo\tng\tNdonga\tOwambo\n\
nds\t\tLow German\tPlattdüütsch\n\
nep\tne\tNepali\tनेपाली\n\
nld\tnl\tDutch\tNederlands\n\
nno\tnn\tNorwegian Nynorsk\tNorsk nynorsk\n\
nob\tnb\tNorwegian Bokmål\tNorsk bokmål\n\
nor\tno\tNorwegian\tNorsk\n\
nya\tny\tNyanja\tchiCheŵa\n\
oci\toc\tOccitan\toccitan\n\
oji\toj\tOjibwa\tᐊᓂᔑᓈᐯᒧᐎᓐ\n\
ori\tor\tOriya\tଓଡ଼ିଆ\n\
orm\tom\tOromo\tAfaan Oromoo\n\
oss\tos\tOssetian\tирон æвзаг\n\
pan\tpa\tPanjabi\tਪੰਜਾਬੀ\n\
pli\tpi\tPali\tपाऴि\n\
pol\tpl\tPolish\tpolski\n\
por\tpt\tPortuguese\tportuguês\n\
pus\tps\tPushto\tپښتو\n\
que\tqu\tQuechua\tRuna Simi\n\
roh\trm\tRomansh\trumantsch grischun\n\
ron\tro\tRomanian\tromână\n\
run\trn\tRundi\tIkirundi\n\
rus\tru\tRussian\tрусский\n\
sag\tsg\tSango\tyângâ tî sängö\n\
san\tsa\tSanskrit\tसंस्कृतम्\n\
scn\t\tSicilian\tsicilianu\n\
sco\t\tScots\tScots\n\
sin\tsi\tSinhala\tසිංහල\n\
slk\tsk\tSlovak\tslovenčina\n\
slv\tsl\tSlovenian\tslovenščina\n\
sme\tse\tNorthern Sami\tDavvisámegiella\n\
smo\tsm\tSamoan\tgagana fa'a Samoa\n\
sna\tsn\tShona\tchiShona\n\
snd\tsd\tSindhi\tसिन्धी\n\
som\tso\tSomali\tSoomaaliga\n\
sot\tst\tSouthern Sotho\tSesotho\n\
spa\tes\tSpanish\tespañol\n\
sqi\tsq\tAlbanian\tShqip\n\
srd\tsc\tSardinian\tsardu\n\
srp\tsr\tSerbian\tсрпски језик\n\
ssw\tss\tSwati\tSiSwati\n\
sun\tsu\tSundanese\tBasa Sunda\n\
swa\tsw\tSwahili\tKiswahili\n\
swe\tsv\tSwedish\tsvenska\n\
tah\tty\tTahitian\tReo Tahiti\n\
tam\tta\tTamil\tதமிழ்\n\
tat\ttt\tTatar\tтатар теле\n\
tel\tte\tTelugu\tతెలుగు\n\
tgk\ttg\tTajik\tтоҷикӣ\n\
tgl\ttl\tTagalog\tWikang Tagalog\n\
tha\tth\tThai\tไทย\n\
tir\tti\tTigrinya\tትግርኛ\n\
tlh\t\tKlingon\ttlhIngan Hol\n\
ton\tto\tTonga\tfaka Tonga\n\
tsn\ttn\tTswana\tSetswana\n\
tso\tts\tTsonga\tXitsonga\n\
tuk\ttk\tTurkmen\tTürkmen\n\
tur\ttr\tTurkish\tTürkçe\n\
twi\ttw\tTwi\tTwi\n\
uig\tug\tUighur\tئۇيغۇرچە\n\
ukr\tuk\tUkrainian\tукраїнська\n\
urd\tur\tUrdu\tاردو\n\
uzb\tuz\tUzbek\tOʻzbek\n\
vec\t\tVenetian\tvèneto\n\
ven\tve\tVenda\tTshivenḓa\n\
vie\tvi\tVietnamese\tTiếng Việt\n\
vol\tvo\tVolapük\tVolapük\n\
wln\twa\tWalloon\twalon\n\
wol\two\tWolof\tWollof\n\
xho\txh\tXhosa\tisiXhosa\n\
yid\tyi\tYiddish\tייִדיש\n\
yor\tyo\tYoruba\tYorùbá\n\
yue\t\tYue Chinese\t粵語\n\
zha\tza\tZhuang\tSaɯ cueŋƅ\n\
zho\tzh\tChinese\t中文\n\
zul\tzu\tZulu\tisiZulu\n\
";

#[test]
fn the_table_of_the_library_is_what_the_datasets_give() {
    let table = compile(ISO_TABLE, AUTONYMS_TABLE).unwrap();
    let all = languages();
    assert_eq!(table.records.len(), all.len());
    for (place, (record, language)) in table.records.iter().zip(&all).enumerate() {
        assert_eq!(record.code_3, language.to_639_3());
        assert_eq!(record.code_1, language.to_639_1());
        assert_eq!(record.name_en, language.to_name());
        assert_eq!(record.autonym, language.to_autonym());
        assert_eq!(
            Language::from_name_lowercase(&table.lowercase_names[place]).map(|l| l.to_name()),
            Some(language.to_name())
        );
        assert_eq!(format!("{:?}", language), table.variants[place]);
    }
}

#[test]
fn the_indexes_of_the_library_are_what_the_datasets_give() {
    let table = compile(ISO_TABLE, AUTONYMS_TABLE).unwrap();
    let all = languages();

    assert_eq!(table.two_letter_slots, TWO_LETTER_SLOTS);

    assert_eq!(table.two_to_three.key, TWO_TO_THREE_KEY);
    assert_eq!(table.two_to_three.disps, TWO_TO_THREE_DISPS);
    let entries: Vec<(&str, Language)> = table
        .two_to_three
        .entries
        .iter()
        .map(|&place| (table.records[place].code_1.unwrap(), all[place]))
        .collect();
    assert_eq!(entries, TWO_TO_THREE);

    assert_eq!(table.three_to_three.key, THREE_TO_THREE_KEY);
    assert_eq!(table.three_to_three.disps, THREE_TO_THREE_DISPS);
    let entries: Vec<(&str, Language)> = table
        .three_to_three
        .entries
        .iter()
        .map(|&place| (table.records[place].code_3, all[place]))
        .collect();
    assert_eq!(entries, THREE_TO_THREE);
}

/// The FNV-1a hash of `text`.
fn fingerprint(text: &str) -> u64 {
    let mut hash: u64 = 0xcbf29ce484222325;
    for byte in text.bytes() {
        hash ^= byte as u64;
        hash = hash.wrapping_mul(0x100000001b3);
    }
    hash
}

#[test]
fn generated_code_table_if_outdated() {
    let (_, sources) = generate(ISO_TABLE, AUTONYMS_TABLE).unwrap();
    assert_eq!((sources.order.len(), fingerprint(&sources.order)), (2272, 8216561234974925609));
    assert_eq!((sources.names.len(), fingerprint(&sources.names)), (16511, 14683907810504876323));
    assert_eq!(
        (sources.three_letter.len(), fingerprint(&sources.three_letter)),
        (19211, 9473555377525460242)
    );
    assert_eq!(
        (sources.two_letter.len(), fingerprint(&sources.two_letter)),
        (14000, 17416409566640165150)
    );
    assert_eq!((sources.table.len(), fingerprint(&sources.table)), (37420, 344204094256656452));
}
