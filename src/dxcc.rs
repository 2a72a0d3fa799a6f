//! DXCC entities, the countries and territories counted for the DX Century
//! Club award. The token of an entity is its code number in decimal.

use vstd::prelude::*;
use crate::error::{AdifError, ErrorKind};
use crate::enumerations::{parse_token, token_string};
use crate::text::{
    all_digits, canonical_digits, decimal, digits_value, lemma_canonical_decimal,
    lemma_decimal, parse_decimal, push_decimal,
};
use crate::vocabulary::{token_chars, Vocabulary};

verus! {

#[derive(Clone, Copy, Debug, PartialEq, Eq, Hash, Structural)]
pub enum DxccEntityCode {
    NoEntity,
    Canada,
    AbuAilIslandDeleted,
    Afghanistan,
    AgalegaAndStBrandonIsland,
    AlandIsland,
    Alaska,
    Albania,
    AldabraDeleted,
    AmericanSamoa,
    AmsterdamAndStPaulIsland,
    AndamanAndNicobarIsland,
    Anguilla,
    Antarctica,
    Armenia,
    AsiaticRussia,
    NewZealandSubantarcticIslands,
    AvesIsland,
    Azerbaijan,
    BajoNuevoDeleted,
    BakerAndHowlandIsland,
    BalearicIsland,
    Palau,
    BlenheimReefDeleted,
    Bouvet,
    BritishNorthBorneoDeleted,
    BritishSomalilandDeleted,
    Belarus,
    CanalZoneDeleted,
    CanaryIsland,
    CelebeAndMoluccaIslandDeleted,
    CKiribatiBritishPhoenixIsland,
    CeutaAndMelilla,
    ChagosIsland,
    ChathamIsland,
    ChristmasIsland,
    ClippertonIsland,
    CocosIsland,
    CocosKeelingIsland,
    ComorosDeleted,
    Crete,
    CrozetIsland,
    DamaoDiuDeleted,
    DesecheoIsland,
    DesrochesDeleted,
    Dodecanese,
    EastMalaysia,
    EasterIsland,
    EKiribatiLineIsland,
    EquatorialGuinea,
    Mexico,
    Eritrea,
    Estonia,
    Ethiopia,
    EuropeanRussia,
    FarquharDeleted,
    FernandoDeNoronha,
    FrenchEquatorialAfricaDeleted,
    FrenchIndoChinaDeleted,
    FrenchWestAfricaDeleted,
    Bahamas,
    FranzJosefLand,
    Barbados,
    FrenchGuiana,
    Bermuda,
    BritishVirginIsland,
    Belize,
    FrenchIndiaDeleted,
    KuwaitSaudiArabiaNeutralZoneDeleted,
    CaymanIsland,
    Cuba,
    GalapagosIsland,
    DominicanRepublic,
    ElSalvador,
    Georgia,
    Guatemala,
    Grenada,
    Haiti,
    Guadeloupe,
    Honduras,
    GermanyDeleted,
    Jamaica,
    Martinique,
    BonaireCuracaoDeleted,
    Nicaragua,
    Panama,
    TurksAndCaicosIsland,
    TrinidadAndTobago,
    Aruba,
    GeyserReefDeleted,
    AntiguaAndBarbuda,
    Dominica,
    Montserrat,
    StLucia,
    StVincent,
    GloriosoIsland,
    Argentina,
    GoaDeleted,
    GoldCoastTogolandDeleted,
    Guam,
    Bolivia,
    GuantanamoBay,
    Guernsey,
    Guinea,
    Brazil,
    GuineaBissau,
    Hawaii,
    HeardIsland,
    Chile,
    IfniDeleted,
    IsleOfMan,
    ItalianSomalilandDeleted,
    Colombia,
    ItuHq,
    JanMayen,
    JavaDeleted,
    Ecuador,
    Jersey,
    JohnstonIsland,
    JuanDeNovaEuropa,
    JuanFernandezIsland,
    Kaliningrad,
    KamaranIslandDeleted,
    KareloFinnishRepublicDeleted,
    Guyana,
    Kazakhstan,
    KerguelenIsland,
    Paraguay,
    KermadecIsland,
    KingmanReefDeleted,
    Kyrgyzstan,
    Peru,
    RepublicOfKorea,
    KureIsland,
    KuriaMuriaIslandDeleted,
    Suriname,
    FalklandIsland,
    LakshadweepIsland,
    Laos,
    Uruguay,
    Latvia,
    Lithuania,
    LordHoweIsland,
    Venezuela,
    Azores,
    Australia,
    MalyjVysotskijIslandDeleted,
    Macao,
    MacquarieIsland,
    YemenArabRepublicDeleted,
    MalayaDeleted,
    Nauru,
    Vanuatu,
    Maldives,
    Tonga,
    MalpeloIsland,
    NewCaledonia,
    PapuaNewGuinea,
    ManchuriaDeleted,
    Mauritius,
    MarianaIsland,
    MarketReef,
    MarshallIsland,
    Mayotte,
    NewZealand,
    MellishReef,
    PitcairnIsland,
    Micronesia,
    MidwayIsland,
    FrenchPolynesia,
    Fiji,
    MinamiTorishima,
    MinervaReefDeleted,
    Moldova,
    MountAthos,
    Mozambique,
    NavassaIsland,
    NetherlandsBorneoDeleted,
    NetherlandsNewGuineaDeleted,
    SolomonIsland,
    NewfoundlandLabradorDeleted,
    Niger,
    Niue,
    NorfolkIsland,
    Samoa,
    NorthCookIsland,
    Ogasawara,
    OkinawaRyukyuIslandDeleted,
    OkinoToriShimaDeleted,
    AnnobonIsland,
    PalestineDeleted,
    PalmyraAndJarvisIsland,
    PapuaTerritoryDeleted,
    PeterIsland,
    PortugueseTimorDeleted,
    PrinceEdwardAndMarionIsland,
    PuertoRico,
    Andorra,
    Revillagigedo,
    AscensionIsland,
    Austria,
    RodriguezIsland,
    RuandaUrundiDeleted,
    Belgium,
    SaarDeleted,
    SableIsland,
    Bulgaria,
    SaintMartin,
    Corsica,
    Cyprus,
    SanAndresAndProvidencia,
    SanFelixAndSanAmbrosio,
    CzechoslovakiaDeleted,
    SaoTomeAndPrincipe,
    SarawakDeleted,
    Denmark,
    FaroeIsland,
    England,
    Finland,
    Sardinia,
    SaudiArabiaIraqNeutralZoneDeleted,
    France,
    SerranaBankAndRoncadorCayDeleted,
    GermanDemocraticRepublicDeleted,
    FederalRepublicOfGermany,
    SikkimDeleted,
    Somalia,
    Gibraltar,
    SouthCookIsland,
    SouthGeorgiaIsland,
    Greece,
    Greenland,
    SouthOrkneyIsland,
    Hungary,
    SouthSandwichIsland,
    SouthShetlandIsland,
    Iceland,
    PeopleSDemocraticRepOfYemenDeleted,
    SouthernSudanDeleted,
    Ireland,
    SovereignMilitaryOrderOfMalta,
    SpratlyIsland,
    Italy,
    StKittsAndNevis,
    StHelena,
    Liechtenstein,
    StPaulIsland,
    StPeterAndStPaulRocks,
    Luxembourg,
    StMaartenSabaStEustatiusDeleted,
    MadeiraIsland,
    Malta,
    SumatraDeleted,
    Svalbard,
    Monaco,
    SwanIslandDeleted,
    Tajikistan,
    Netherlands,
    TangierDeleted,
    NorthernIreland,
    Norway,
    TerritoryOfNewGuineaDeleted,
    TibetDeleted,
    Poland,
    TokelauIsland,
    TriesteDeleted,
    Portugal,
    TrindadeAndMartimVazIsland,
    TristanDaCunhaAndGoughIsland,
    Romania,
    TromelinIsland,
    StPierreAndMiquelon,
    SanMarino,
    Scotland,
    Turkmenistan,
    Spain,
    Tuvalu,
    UkSovereignBaseAreasOnCyprus,
    Sweden,
    VirginIsland,
    Uganda,
    Switzerland,
    Ukraine,
    UnitedNationsHq,
    UnitedStatesOfAmerica,
    Uzbekistan,
    VietNam,
    Wales,
    Vatican,
    Serbia,
    WakeIsland,
    WallisAndFutunaIsland,
    WestMalaysia,
    WKiribatiGilbertIsland,
    WesternSahara,
    WillisIsland,
    Bahrain,
    Bangladesh,
    Bhutan,
    ZanzibarDeleted,
    CostaRica,
    Myanmar,
    Cambodia,
    SriLanka,
    China,
    HongKong,
    India,
    Indonesia,
    Iran,
    Iraq,
    Israel,
    Japan,
    Jordan,
    DemocraticPeopleSRepOfKorea,
    BruneiDarussalam,
    Kuwait,
    Lebanon,
    Mongolia,
    Nepal,
    Oman,
    Pakistan,
    Philippines,
    Qatar,
    SaudiArabia,
    Seychelles,
    Singapore,
    Djibouti,
    Syria,
    Taiwan,
    Thailand,
    Turkey,
    UnitedArabEmirates,
    Algeria,
    Angola,
    Botswana,
    Burundi,
    Cameroon,
    CentralAfrica,
    CapeVerde,
    Chad,
    Comoros,
    RepublicOfTheCongo,
    DemocraticRepublicOfTheCongo,
    Benin,
    Gabon,
    TheGambia,
    Ghana,
    CoteDIvoire,
    Kenya,
    Lesotho,
    Liberia,
    Libya,
    Madagascar,
    Malawi,
    Mali,
    Mauritania,
    Morocco,
    Nigeria,
    Zimbabwe,
    ReunionIsland,
    Rwanda,
    Senegal,
    SierraLeone,
    RotumaIsland,
    SouthAfrica,
    Namibia,
    Sudan,
    Swaziland,
    Tanzania,
    Tunisia,
    Egypt,
    BurkinaFaso,
    Zambia,
    Togo,
    WalvisBayDeleted,
    ConwayReef,
    BanabaIslandOceanIsland,
    Yemen,
    PenguinIslandDeleted,
    Croatia,
    Slovenia,
    BosniaHerzegovina,
    Macedonia,
    CzechRepublic,
    SlovakRepublic,
    PratasIsland,
    ScarboroughReef,
    TemotuProvince,
    AustralIsland,
    MarquesasIsland,
    Palestine,
    TimorLeste,
    ChesterfieldIsland,
    DucieIsland,
    Montenegro,
    SwainsIsland,
    SaintBarthelemy,
    Curacao,
    StMaarten,
    SabaAndStEustatius,
    Bonaire,
    SouthSudanRepublicOf,
    RepublicOfKosovo,
}

impl View for DxccEntityCode {
    type V = DxccEntityCode;

    open spec fn view(&self) -> DxccEntityCode {
        *self
    }
}

impl DxccEntityCode {
    pub open spec fn spec_code(self) -> nat {
        match self {
            DxccEntityCode::NoEntity => 0,
            DxccEntityCode::Canada => 1,
            DxccEntityCode::AbuAilIslandDeleted => 2,
            DxccEntityCode::Afghanistan => 3,
            DxccEntityCode::AgalegaAndStBrandonIsland => 4,
            DxccEntityCode::AlandIsland => 5,
            DxccEntityCode::Alaska => 6,
            DxccEntityCode::Albania => 7,
            DxccEntityCode::AldabraDeleted => 8,
            DxccEntityCode::AmericanSamoa => 9,
            DxccEntityCode::AmsterdamAndStPaulIsland => 10,
            DxccEntityCode::AndamanAndNicobarIsland => 11,
            DxccEntityCode::Anguilla => 12,
            DxccEntityCode::Antarctica => 13,
            DxccEntityCode::Armenia => 14,
            DxccEntityCode::AsiaticRussia => 15,
            DxccEntityCode::NewZealandSubantarcticIslands => 16,
            DxccEntityCode::AvesIsland => 17,
            DxccEntityCode::Azerbaijan => 18,
            DxccEntityCode::BajoNuevoDeleted => 19,
            DxccEntityCode::BakerAndHowlandIsland => 20,
            DxccEntityCode::BalearicIsland => 21,
            DxccEntityCode::Palau => 22,
            DxccEntityCode::BlenheimReefDeleted => 23,
            DxccEntityCode::Bouvet => 24,
            DxccEntityCode::BritishNorthBorneoDeleted => 25,
            DxccEntityCode::BritishSomalilandDeleted => 26,
            DxccEntityCode::Belarus => 27,
            DxccEntityCode::CanalZoneDeleted => 28,
            DxccEntityCode::CanaryIsland => 29,
            DxccEntityCode::CelebeAndMoluccaIslandDeleted => 30,
            DxccEntityCode::CKiribatiBritishPhoenixIsland => 31,
            DxccEntityCode::CeutaAndMelilla => 32,
            DxccEntityCode::ChagosIsland => 33,
            DxccEntityCode::ChathamIsland => 34,
            DxccEntityCode::ChristmasIsland => 35,
            DxccEntityCode::ClippertonIsland => 36,
            DxccEntityCode::CocosIsland => 37,
            DxccEntityCode::CocosKeelingIsland => 38,
            DxccEntityCode::ComorosDeleted => 39,
            DxccEntityCode::Crete => 40,
            DxccEntityCode::CrozetIsland => 41,
            DxccEntityCode::DamaoDiuDeleted => 42,
            DxccEntityCode::DesecheoIsland => 43,
            DxccEntityCode::DesrochesDeleted => 44,
            DxccEntityCode::Dodecanese => 45,
            DxccEntityCode::EastMalaysia => 46,
            DxccEntityCode::EasterIsland => 47,
            DxccEntityCode::EKiribatiLineIsland => 48,
            DxccEntityCode::EquatorialGuinea => 49,
            DxccEntityCode::Mexico => 50,
            DxccEntityCode::Eritrea => 51,
            DxccEntityCode::Estonia => 52,
            DxccEntityCode::Ethiopia => 53,
            DxccEntityCode::EuropeanRussia => 54,
            DxccEntityCode::FarquharDeleted => 55,
            DxccEntityCode::FernandoDeNoronha => 56,
            DxccEntityCode::FrenchEquatorialAfricaDeleted => 57,
            DxccEntityCode::FrenchIndoChinaDeleted => 58,
            DxccEntityCode::FrenchWestAfricaDeleted => 59,
            DxccEntityCode::Bahamas => 60,
            DxccEntityCode::FranzJosefLand => 61,
            DxccEntityCode::Barbados => 62,
            DxccEntityCode::FrenchGuiana => 63,
            DxccEntityCode::Bermuda => 64,
            DxccEntityCode::BritishVirginIsland => 65,
            DxccEntityCode::Belize => 66,
            DxccEntityCode::FrenchIndiaDeleted => 67,
            DxccEntityCode::KuwaitSaudiArabiaNeutralZoneDeleted => 68,
            DxccEntityCode::CaymanIsland => 69,
            DxccEntityCode::Cuba => 70,
            DxccEntityCode::GalapagosIsland => 71,
            DxccEntityCode::DominicanRepublic => 72,
            DxccEntityCode::ElSalvador => 74,
            DxccEntityCode::Georgia => 75,
            DxccEntityCode::Guatemala => 76,
            DxccEntityCode::Grenada => 77,
            DxccEntityCode::Haiti => 78,
            DxccEntityCode::Guadeloupe => 79,
            DxccEntityCode::Honduras => 80,
            DxccEntityCode::GermanyDeleted => 81,
            DxccEntityCode::Jamaica => 82,
            DxccEntityCode::Martinique => 84,
            DxccEntityCode::BonaireCuracaoDeleted => 85,
            DxccEntityCode::Nicaragua => 86,
            DxccEntityCode::Panama => 88,
            DxccEntityCode::TurksAndCaicosIsland => 89,
            DxccEntityCode::TrinidadAndTobago => 90,
            DxccEntityCode::Aruba => 91,
            DxccEntityCode::GeyserReefDeleted => 93,
            DxccEntityCode::AntiguaAndBarbuda => 94,
            DxccEntityCode::Dominica => 95,
            DxccEntityCode::Montserrat => 96,
            DxccEntityCode::StLucia => 97,
            DxccEntityCode::StVincent => 98,
            DxccEntityCode::GloriosoIsland => 99,
            DxccEntityCode::Argentina => 100,
            DxccEntityCode::GoaDeleted => 101,
            DxccEntityCode::GoldCoastTogolandDeleted => 102,
            DxccEntityCode::Guam => 103,
            DxccEntityCode::Bolivia => 104,
            DxccEntityCode::GuantanamoBay => 105,
            DxccEntityCode::Guernsey => 106,
            DxccEntityCode::Guinea => 107,
            DxccEntityCode::Brazil => 108,
            DxccEntityCode::GuineaBissau => 109,
            DxccEntityCode::Hawaii => 110,
            DxccEntityCode::HeardIsland => 111,
            DxccEntityCode::Chile => 112,
            DxccEntityCode::IfniDeleted => 113,
            DxccEntityCode::IsleOfMan => 114,
            DxccEntityCode::ItalianSomalilandDeleted => 115,
            DxccEntityCode::Colombia => 116,
            DxccEntityCode::ItuHq => 117,
            DxccEntityCode::JanMayen => 118,
            DxccEntityCode::JavaDeleted => 119,
            DxccEntityCode::Ecuador => 120,
            DxccEntityCode::Jersey => 122,
            DxccEntityCode::JohnstonIsland => 123,
            DxccEntityCode::JuanDeNovaEuropa => 124,
            DxccEntityCode::JuanFernandezIsland => 125,
            DxccEntityCode::Kaliningrad => 126,
            DxccEntityCode::KamaranIslandDeleted => 127,
            DxccEntityCode::KareloFinnishRepublicDeleted => 128,
            DxccEntityCode::Guyana => 129,
            DxccEntityCode::Kazakhstan => 130,
            DxccEntityCode::KerguelenIsland => 131,
            DxccEntityCode::Paraguay => 132,
            DxccEntityCode::KermadecIsland => 133,
            DxccEntityCode::KingmanReefDeleted => 134,
            DxccEntityCode::Kyrgyzstan => 135,
            DxccEntityCode::Peru => 136,
            DxccEntityCode::RepublicOfKorea => 137,
            DxccEntityCode::KureIsland => 138,
            DxccEntityCode::KuriaMuriaIslandDeleted => 139,
            DxccEntityCode::Suriname => 140,
            DxccEntityCode::FalklandIsland => 141,
            DxccEntityCode::LakshadweepIsland => 142,
            DxccEntityCode::Laos => 143,
            DxccEntityCode::Uruguay => 144,
            DxccEntityCode::Latvia => 145,
            DxccEntityCode::Lithuania => 146,
            DxccEntityCode::LordHoweIsland => 147,
            DxccEntityCode::Venezuela => 148,
            DxccEntityCode::Azores => 149,
            DxccEntityCode::Australia => 150,
            DxccEntityCode::MalyjVysotskijIslandDeleted => 151,
            DxccEntityCode::Macao => 152,
            DxccEntityCode::MacquarieIsland => 153,
            DxccEntityCode::YemenArabRepublicDeleted => 154,
            DxccEntityCode::MalayaDeleted => 155,
            DxccEntityCode::Nauru => 157,
            DxccEntityCode::Vanuatu => 158,
            DxccEntityCode::Maldives => 159,
            DxccEntityCode::Tonga => 160,
            DxccEntityCode::MalpeloIsland => 161,
            DxccEntityCode::NewCaledonia => 162,
            DxccEntityCode::PapuaNewGuinea => 163,
            DxccEntityCode::ManchuriaDeleted => 164,
            DxccEntityCode::Mauritius => 165,
            DxccEntityCode::MarianaIsland => 166,
            DxccEntityCode::MarketReef => 167,
            DxccEntityCode::MarshallIsland => 168,
            DxccEntityCode::Mayotte => 169,
            DxccEntityCode::NewZealand => 170,
            DxccEntityCode::MellishReef => 171,
            DxccEntityCode::PitcairnIsland => 172,
            DxccEntityCode::Micronesia => 173,
            DxccEntityCode::MidwayIsland => 174,
            DxccEntityCode::FrenchPolynesia => 175,
            DxccEntityCode::Fiji => 176,
            DxccEntityCode::MinamiTorishima => 177,
            DxccEntityCode::MinervaReefDeleted => 178,
            DxccEntityCode::Moldova => 179,
            DxccEntityCode::MountAthos => 180,
            DxccEntityCode::Mozambique => 181,
            DxccEntityCode::NavassaIsland => 182,
            DxccEntityCode::NetherlandsBorneoDeleted => 183,
            DxccEntityCode::NetherlandsNewGuineaDeleted => 184,
            DxccEntityCode::SolomonIsland => 185,
            DxccEntityCode::NewfoundlandLabradorDeleted => 186,
            DxccEntityCode::Niger => 187,
            DxccEntityCode::Niue => 188,
            DxccEntityCode::NorfolkIsland => 189,
            DxccEntityCode::Samoa => 190,
            DxccEntityCode::NorthCookIsland => 191,
            DxccEntityCode::Ogasawara => 192,
            DxccEntityCode::OkinawaRyukyuIslandDeleted => 193,
            DxccEntityCode::OkinoToriShimaDeleted => 194,
            DxccEntityCode::AnnobonIsland => 195,
            DxccEntityCode::PalestineDeleted => 196,
            DxccEntityCode::PalmyraAndJarvisIsland => 197,
            DxccEntityCode::PapuaTerritoryDeleted => 198,
            DxccEntityCode::PeterIsland => 199,
            DxccEntityCode::PortugueseTimorDeleted => 200,
            DxccEntityCode::PrinceEdwardAndMarionIsland => 201,
            DxccEntityCode::PuertoRico => 202,
            DxccEntityCode::Andorra => 203,
            DxccEntityCode::Revillagigedo => 204,
            DxccEntityCode::AscensionIsland => 205,
            DxccEntityCode::Austria => 206,
            DxccEntityCode::RodriguezIsland => 207,
            DxccEntityCode::RuandaUrundiDeleted => 208,
            DxccEntityCode::Belgium => 209,
            DxccEntityCode::SaarDeleted => 210,
            DxccEntityCode::SableIsland => 211,
            DxccEntityCode::Bulgaria => 212,
            DxccEntityCode::SaintMartin => 213,
            DxccEntityCode::Corsica => 214,
            DxccEntityCode::Cyprus => 215,
            DxccEntityCode::SanAndresAndProvidencia => 216,
            DxccEntityCode::SanFelixAndSanAmbrosio => 217,
            DxccEntityCode::CzechoslovakiaDeleted => 218,
            DxccEntityCode::SaoTomeAndPrincipe => 219,
            DxccEntityCode::SarawakDeleted => 220,
            DxccEntityCode::Denmark => 221,
            DxccEntityCode::FaroeIsland => 222,
            DxccEntityCode::England => 223,
            DxccEntityCode::Finland => 224,
            DxccEntityCode::Sardinia => 225,
            DxccEntityCode::SaudiArabiaIraqNeutralZoneDeleted => 226,
            DxccEntityCode::France => 227,
            DxccEntityCode::SerranaBankAndRoncadorCayDeleted => 228,
            DxccEntityCode::GermanDemocraticRepublicDeleted => 229,
            DxccEntityCode::FederalRepublicOfGermany => 230,
            DxccEntityCode::SikkimDeleted => 231,
            DxccEntityCode::Somalia => 232,
            DxccEntityCode::Gibraltar => 233,
            DxccEntityCode::SouthCookIsland => 234,
            DxccEntityCode::SouthGeorgiaIsland => 235,
            DxccEntityCode::Greece => 236,
            DxccEntityCode::Greenland => 237,
            DxccEntityCode::SouthOrkneyIsland => 238,
            DxccEntityCode::Hungary => 239,
            DxccEntityCode::SouthSandwichIsland => 240,
            DxccEntityCode::SouthShetlandIsland => 241,
            DxccEntityCode::Iceland => 242,
            DxccEntityCode::PeopleSDemocraticRepOfYemenDeleted => 243,
            DxccEntityCode::SouthernSudanDeleted => 244,
            DxccEntityCode::Ireland => 245,
            DxccEntityCode::SovereignMilitaryOrderOfMalta => 246,
            DxccEntityCode::SpratlyIsland => 247,
            DxccEntityCode::Italy => 248,
            DxccEntityCode::StKittsAndNevis => 249,
            DxccEntityCode::StHelena => 250,
            DxccEntityCode::Liechtenstein => 251,
            DxccEntityCode::StPaulIsland => 252,
            DxccEntityCode::StPeterAndStPaulRocks => 253,
            DxccEntityCode::Luxembourg => 254,
            DxccEntityCode::StMaartenSabaStEustatiusDeleted => 255,
            DxccEntityCode::MadeiraIsland => 256,
            DxccEntityCode::Malta => 257,
            DxccEntityCode::SumatraDeleted => 258,
            DxccEntityCode::Svalbard => 259,
            DxccEntityCode::Monaco => 260,
            DxccEntityCode::SwanIslandDeleted => 261,
            DxccEntityCode::Tajikistan => 262,
            DxccEntityCode::Netherlands => 263,
            DxccEntityCode::TangierDeleted => 264,
            DxccEntityCode::NorthernIreland => 265,
            DxccEntityCode::Norway => 266,
            DxccEntityCode::TerritoryOfNewGuineaDeleted => 267,
            DxccEntityCode::TibetDeleted => 268,
            DxccEntityCode::Poland => 269,
            DxccEntityCode::TokelauIsland => 270,
            DxccEntityCode::TriesteDeleted => 271,
            DxccEntityCode::Portugal => 272,
            DxccEntityCode::TrindadeAndMartimVazIsland => 273,
            DxccEntityCode::TristanDaCunhaAndGoughIsland => 274,
            DxccEntityCode::Romania => 275,
            DxccEntityCode::TromelinIsland => 276,
            DxccEntityCode::StPierreAndMiquelon => 277,
            DxccEntityCode::SanMarino => 278,
            DxccEntityCode::Scotland => 279,
            DxccEntityCode::Turkmenistan => 280,
            DxccEntityCode::Spain => 281,
            DxccEntityCode::Tuvalu => 282,
            DxccEntityCode::UkSovereignBaseAreasOnCyprus => 283,
            DxccEntityCode::Sweden => 284,
            DxccEntityCode::VirginIsland => 285,
            DxccEntityCode::Uganda => 286,
            DxccEntityCode::Switzerland => 287,
            DxccEntityCode::Ukraine => 288,
            DxccEntityCode::UnitedNationsHq => 289,
            DxccEntityCode::UnitedStatesOfAmerica => 291,
            DxccEntityCode::Uzbekistan => 292,
            DxccEntityCode::VietNam => 293,
            DxccEntityCode::Wales => 294,
            DxccEntityCode::Vatican => 295,
            DxccEntityCode::Serbia => 296,
            DxccEntityCode::WakeIsland => 297,
            DxccEntityCode::WallisAndFutunaIsland => 298,
            DxccEntityCode::WestMalaysia => 299,
            DxccEntityCode::WKiribatiGilbertIsland => 301,
            DxccEntityCode::WesternSahara => 302,
            DxccEntityCode::WillisIsland => 303,
            DxccEntityCode::Bahrain => 304,
            DxccEntityCode::Bangladesh => 305,
            DxccEntityCode::Bhutan => 306,
            DxccEntityCode::ZanzibarDeleted => 307,
            DxccEntityCode::CostaRica => 308,
            DxccEntityCode::Myanmar => 309,
            DxccEntityCode::Cambodia => 312,
            DxccEntityCode::SriLanka => 315,
            DxccEntityCode::China => 318,
            DxccEntityCode::HongKong => 321,
            DxccEntityCode::India => 324,
            DxccEntityCode::Indonesia => 327,
            DxccEntityCode::Iran => 330,
            DxccEntityCode::Iraq => 333,
            DxccEntityCode::Israel => 336,
            DxccEntityCode::Japan => 339,
            DxccEntityCode::Jordan => 342,
            DxccEntityCode::DemocraticPeopleSRepOfKorea => 344,
            DxccEntityCode::BruneiDarussalam => 345,
            DxccEntityCode::Kuwait => 348,
            DxccEntityCode::Lebanon => 354,
            DxccEntityCode::Mongolia => 363,
            DxccEntityCode::Nepal => 369,
            DxccEntityCode::Oman => 370,
            DxccEntityCode::Pakistan => 372,
            DxccEntityCode::Philippines => 375,
            DxccEntityCode::Qatar => 376,
            DxccEntityCode::SaudiArabia => 378,
            DxccEntityCode::Seychelles => 379,
            DxccEntityCode::Singapore => 381,
            DxccEntityCode::Djibouti => 382,
            DxccEntityCode::Syria => 384,
            DxccEntityCode::Taiwan => 386,
            DxccEntityCode::Thailand => 387,
            DxccEntityCode::Turkey => 390,
            DxccEntityCode::UnitedArabEmirates => 391,
            DxccEntityCode::Algeria => 400,
            DxccEntityCode::Angola => 401,
            DxccEntityCode::Botswana => 402,
            DxccEntityCode::Burundi => 404,
            DxccEntityCode::Cameroon => 406,
            DxccEntityCode::CentralAfrica => 408,
            DxccEntityCode::CapeVerde => 409,
            DxccEntityCode::Chad => 410,
            DxccEntityCode::Comoros => 411,
            DxccEntityCode::RepublicOfTheCongo => 412,
            DxccEntityCode::DemocraticRepublicOfTheCongo => 414,
            DxccEntityCode::Benin => 416,
            DxccEntityCode::Gabon => 420,
            DxccEntityCode::TheGambia => 422,
            DxccEntityCode::Ghana => 424,
            DxccEntityCode::CoteDIvoire => 428,
            DxccEntityCode::Kenya => 430,
            DxccEntityCode::Lesotho => 432,
            DxccEntityCode::Liberia => 434,
            DxccEntityCode::Libya => 436,
            DxccEntityCode::Madagascar => 438,
            DxccEntityCode::Malawi => 440,
            DxccEntityCode::Mali => 442,
            DxccEntityCode::Mauritania => 444,
            DxccEntityCode::Morocco => 446,
            DxccEntityCode::Nigeria => 450,
            DxccEntityCode::Zimbabwe => 452,
            DxccEntityCode::ReunionIsland => 453,
            DxccEntityCode::Rwanda => 454,
            DxccEntityCode::Senegal => 456,
            DxccEntityCode::SierraLeone => 458,
            DxccEntityCode::RotumaIsland => 460,
            DxccEntityCode::SouthAfrica => 462,
            DxccEntityCode::Namibia => 464,
            DxccEntityCode::Sudan => 466,
            DxccEntityCode::Swaziland => 468,
            DxccEntityCode::Tanzania => 470,
            DxccEntityCode::Tunisia => 474,
            DxccEntityCode::Egypt => 478,
            DxccEntityCode::BurkinaFaso => 480,
            DxccEntityCode::Zambia => 482,
            DxccEntityCode::Togo => 483,
            DxccEntityCode::WalvisBayDeleted => 488,
            DxccEntityCode::ConwayReef => 489,
            DxccEntityCode::BanabaIslandOceanIsland => 490,
            DxccEntityCode::Yemen => 492,
            DxccEntityCode::PenguinIslandDeleted => 493,
            DxccEntityCode::Croatia => 497,
            DxccEntityCode::Slovenia => 499,
            DxccEntityCode::BosniaHerzegovina => 501,
            DxccEntityCode::Macedonia => 502,
            DxccEntityCode::CzechRepublic => 503,
            DxccEntityCode::SlovakRepublic => 504,
            DxccEntityCode::PratasIsland => 505,
            DxccEntityCode::ScarboroughReef => 506,
            DxccEntityCode::TemotuProvince => 507,
            DxccEntityCode::AustralIsland => 508,
            DxccEntityCode::MarquesasIsland => 509,
            DxccEntityCode::Palestine => 510,
            DxccEntityCode::TimorLeste => 511,
            DxccEntityCode::ChesterfieldIsland => 512,
            DxccEntityCode::DucieIsland => 513,
            DxccEntityCode::Montenegro => 514,
            DxccEntityCode::SwainsIsland => 515,
            DxccEntityCode::SaintBarthelemy => 516,
            DxccEntityCode::Curacao => 517,
            DxccEntityCode::StMaarten => 518,
            DxccEntityCode::SabaAndStEustatius => 519,
            DxccEntityCode::Bonaire => 520,
            DxccEntityCode::SouthSudanRepublicOf => 521,
            DxccEntityCode::RepublicOfKosovo => 522,
        }
    }

    pub open spec fn spec_from_code(n: nat) -> Option<DxccEntityCode> {
        if n == 0 {
            Some(DxccEntityCode::NoEntity)
        } else if n == 1 {
            Some(DxccEntityCode::Canada)
        } else if n == 2 {
            Some(DxccEntityCode::AbuAilIslandDeleted)
        } else if n == 3 {
            Some(DxccEntityCode::Afghanistan)
        } else if n == 4 {
            Some(DxccEntityCode::AgalegaAndStBrandonIsland)
        } else if n == 5 {
            Some(DxccEntityCode::AlandIsland)
        } else if n == 6 {
            Some(DxccEntityCode::Alaska)
        } else if n == 7 {
            Some(DxccEntityCode::Albania)
        } else if n == 8 {
            Some(DxccEntityCode::AldabraDeleted)
        } else if n == 9 {
            Some(DxccEntityCode::AmericanSamoa)
        } else if n == 10 {
            Some(DxccEntityCode::AmsterdamAndStPaulIsland)
        } else if n == 11 {
            Some(DxccEntityCode::AndamanAndNicobarIsland)
        } else if n == 12 {
            Some(DxccEntityCode::Anguilla)
        } else if n == 13 {
            Some(DxccEntityCode::Antarctica)
        } else if n == 14 {
            Some(DxccEntityCode::Armenia)
        } else if n == 15 {
            Some(DxccEntityCode::AsiaticRussia)
        } else if n == 16 {
            Some(DxccEntityCode::NewZealandSubantarcticIslands)
        } else if n == 17 {
            Some(DxccEntityCode::AvesIsland)
        } else if n == 18 {
            Some(DxccEntityCode::Azerbaijan)
        } else if n == 19 {
            Some(DxccEntityCode::BajoNuevoDeleted)
        } else if n == 20 {
            Some(DxccEntityCode::BakerAndHowlandIsland)
        } else if n == 21 {
            Some(DxccEntityCode::BalearicIsland)
        } else if n == 22 {
            Some(DxccEntityCode::Palau)
        } else if n == 23 {
            Some(DxccEntityCode::BlenheimReefDeleted)
        } else if n == 24 {
            Some(DxccEntityCode::Bouvet)
        } else if n == 25 {
            Some(DxccEntityCode::BritishNorthBorneoDeleted)
        } else if n == 26 {
            Some(DxccEntityCode::BritishSomalilandDeleted)
        } else if n == 27 {
            Some(DxccEntityCode::Belarus)
        } else if n == 28 {
            Some(DxccEntityCode::CanalZoneDeleted)
        } else if n == 29 {
            Some(DxccEntityCode::CanaryIsland)
        } else if n == 30 {
            Some(DxccEntityCode::CelebeAndMoluccaIslandDeleted)
        } else if n == 31 {
            Some(DxccEntityCode::CKiribatiBritishPhoenixIsland)
        } else if n == 32 {
            Some(DxccEntityCode::CeutaAndMelilla)
        } else if n == 33 {
            Some(DxccEntityCode::ChagosIsland)
        } else if n == 34 {
            Some(DxccEntityCode::ChathamIsland)
        } else if n == 35 {
            Some(DxccEntityCode::ChristmasIsland)
        } else if n == 36 {
            Some(DxccEntityCode::ClippertonIsland)
        } else if n == 37 {
            Some(DxccEntityCode::CocosIsland)
        } else if n == 38 {
            Some(DxccEntityCode::CocosKeelingIsland)
        } else if n == 39 {
            Some(DxccEntityCode::ComorosDeleted)
        } else if n == 40 {
            Some(DxccEntityCode::Crete)
        } else if n == 41 {
            Some(DxccEntityCode::CrozetIsland)
        } else if n == 42 {
            Some(DxccEntityCode::DamaoDiuDeleted)
        } else if n == 43 {
            Some(DxccEntityCode::DesecheoIsland)
        } else if n == 44 {
            Some(DxccEntityCode::DesrochesDeleted)
        } else if n == 45 {
            Some(DxccEntityCode::Dodecanese)
        } else if n == 46 {
            Some(DxccEntityCode::EastMalaysia)
        } else if n == 47 {
            Some(DxccEntityCode::EasterIsland)
        } else if n == 48 {
            Some(DxccEntityCode::EKiribatiLineIsland)
        } else if n == 49 {
            Some(DxccEntityCode::EquatorialGuinea)
        } else if n == 50 {
            Some(DxccEntityCode::Mexico)
        } else if n == 51 {
            Some(DxccEntityCode::Eritrea)
        } else if n == 52 {
            Some(DxccEntityCode::Estonia)
        } else if n == 53 {
            Some(DxccEntityCode::Ethiopia)
        } else if n == 54 {
            Some(DxccEntityCode::EuropeanRussia)
        } else if n == 55 {
            Some(DxccEntityCode::FarquharDeleted)
        } else if n == 56 {
            Some(DxccEntityCode::FernandoDeNoronha)
        } else if n == 57 {
            Some(DxccEntityCode::FrenchEquatorialAfricaDeleted)
        } else if n == 58 {
            Some(DxccEntityCode::FrenchIndoChinaDeleted)
        } else if n == 59 {
            Some(DxccEntityCode::FrenchWestAfricaDeleted)
        } else if n == 60 {
            Some(DxccEntityCode::Bahamas)
        } else if n == 61 {
            Some(DxccEntityCode::FranzJosefLand)
        } else if n == 62 {
            Some(DxccEntityCode::Barbados)
        } else if n == 63 {
            Some(DxccEntityCode::FrenchGuiana)
        } else if n == 64 {
            Some(DxccEntityCode::Bermuda)
        } else if n == 65 {
            Some(DxccEntityCode::BritishVirginIsland)
        } else if n == 66 {
            Some(DxccEntityCode::Belize)
        } else if n == 67 {
            Some(DxccEntityCode::FrenchIndiaDeleted)
        } else if n == 68 {
            Some(DxccEntityCode::KuwaitSaudiArabiaNeutralZoneDeleted)
        } else if n == 69 {
            Some(DxccEntityCode::CaymanIsland)
        } else if n == 70 {
            Some(DxccEntityCode::Cuba)
        } else if n == 71 {
            Some(DxccEntityCode::GalapagosIsland)
        } else if n == 72 {
            Some(DxccEntityCode::DominicanRepublic)
        } else if n == 74 {
            Some(DxccEntityCode::ElSalvador)
        } else if n == 75 {
            Some(DxccEntityCode::Georgia)
        } else if n == 76 {
            Some(DxccEntityCode::Guatemala)
        } else if n == 77 {
            Some(DxccEntityCode::Grenada)
        } else if n == 78 {
            Some(DxccEntityCode::Haiti)
        } else if n == 79 {
            Some(DxccEntityCode::Guadeloupe)
        } else if n == 80 {
            Some(DxccEntityCode::Honduras)
        } else if n == 81 {
            Some(DxccEntityCode::GermanyDeleted)
        } else if n == 82 {
            Some(DxccEntityCode::Jamaica)
        } else if n == 84 {
            Some(DxccEntityCode::Martinique)
        } else if n == 85 {
            Some(DxccEntityCode::BonaireCuracaoDeleted)
        } else if n == 86 {
            Some(DxccEntityCode::Nicaragua)
        } else if n == 88 {
            Some(DxccEntityCode::Panama)
        } else if n == 89 {
            Some(DxccEntityCode::TurksAndCaicosIsland)
        } else if n == 90 {
            Some(DxccEntityCode::TrinidadAndTobago)
        } else if n == 91 {
            Some(DxccEntityCode::Aruba)
        } else if n == 93 {
            Some(DxccEntityCode::GeyserReefDeleted)
        } else if n == 94 {
            Some(DxccEntityCode::AntiguaAndBarbuda)
        } else if n == 95 {
            Some(DxccEntityCode::Dominica)
        } else if n == 96 {
            Some(DxccEntityCode::Montserrat)
        } else if n == 97 {
            Some(DxccEntityCode::StLucia)
        } else if n == 98 {
            Some(DxccEntityCode::StVincent)
        } else if n == 99 {
            Some(DxccEntityCode::GloriosoIsland)
        } else if n == 100 {
            Some(DxccEntityCode::Argentina)
        } else if n == 101 {
            Some(DxccEntityCode::GoaDeleted)
        } else if n == 102 {
            Some(DxccEntityCode::GoldCoastTogolandDeleted)
        } else if n == 103 {
            Some(DxccEntityCode::Guam)
        } else if n == 104 {
            Some(DxccEntityCode::Bolivia)
        } else if n == 105 {
            Some(DxccEntityCode::GuantanamoBay)
        } else if n == 106 {
            Some(DxccEntityCode::Guernsey)
        } else if n == 107 {
            Some(DxccEntityCode::Guinea)
        } else if n == 108 {
            Some(DxccEntityCode::Brazil)
        } else if n == 109 {
            Some(DxccEntityCode::GuineaBissau)
        } else if n == 110 {
            Some(DxccEntityCode::Hawaii)
        } else if n == 111 {
            Some(DxccEntityCode::HeardIsland)
        } else if n == 112 {
            Some(DxccEntityCode::Chile)
        } else if n == 113 {
            Some(DxccEntityCode::IfniDeleted)
        } else if n == 114 {
            Some(DxccEntityCode::IsleOfMan)
        } else if n == 115 {
            Some(DxccEntityCode::ItalianSomalilandDeleted)
        } else if n == 116 {
            Some(DxccEntityCode::Colombia)
        } else if n == 117 {
            Some(DxccEntityCode::ItuHq)
        } else if n == 118 {
            Some(DxccEntityCode::JanMayen)
        } else if n == 119 {
            Some(DxccEntityCode::JavaDeleted)
        } else if n == 120 {
            Some(DxccEntityCode::Ecuador)
        } else if n == 122 {
            Some(DxccEntityCode::Jersey)
        } else if n == 123 {
            Some(DxccEntityCode::JohnstonIsland)
        } else if n == 124 {
            Some(DxccEntityCode::JuanDeNovaEuropa)
        } else if n == 125 {
            Some(DxccEntityCode::JuanFernandezIsland)
        } else if n == 126 {
            Some(DxccEntityCode::Kaliningrad)
        } else if n == 127 {
            Some(DxccEntityCode::KamaranIslandDeleted)
        } else if n == 128 {
            Some(DxccEntityCode::KareloFinnishRepublicDeleted)
        } else if n == 129 {
            Some(DxccEntityCode::Guyana)
        } else if n == 130 {
            Some(DxccEntityCode::Kazakhstan)
        } else if n == 131 {
            Some(DxccEntityCode::KerguelenIsland)
        } else if n == 132 {
            Some(DxccEntityCode::Paraguay)
        } else if n == 133 {
            Some(DxccEntityCode::KermadecIsland)
        } else if n == 134 {
            Some(DxccEntityCode::KingmanReefDeleted)
        } else if n == 135 {
            Some(DxccEntityCode::Kyrgyzstan)
        } else if n == 136 {
            Some(DxccEntityCode::Peru)
        } else if n == 137 {
            Some(DxccEntityCode::RepublicOfKorea)
        } else if n == 138 {
            Some(DxccEntityCode::KureIsland)
        } else if n == 139 {
            Some(DxccEntityCode::KuriaMuriaIslandDeleted)
        } else if n == 140 {
            Some(DxccEntityCode::Suriname)
        } else if n == 141 {
            Some(DxccEntityCode::FalklandIsland)
        } else if n == 142 {
            Some(DxccEntityCode::LakshadweepIsland)
        } else if n == 143 {
            Some(DxccEntityCode::Laos)
        } else if n == 144 {
            Some(DxccEntityCode::Uruguay)
        } else if n == 145 {
            Some(DxccEntityCode::Latvia)
        } else if n == 146 {
            Some(DxccEntityCode::Lithuania)
        } else if n == 147 {
            Some(DxccEntityCode::LordHoweIsland)
        } else if n == 148 {
            Some(DxccEntityCode::Venezuela)
        } else if n == 149 {
            Some(DxccEntityCode::Azores)
        } else if n == 150 {
            Some(DxccEntityCode::Australia)
        } else if n == 151 {
            Some(DxccEntityCode::MalyjVysotskijIslandDeleted)
        } else if n == 152 {
            Some(DxccEntityCode::Macao)
        } else if n == 153 {
            Some(DxccEntityCode::MacquarieIsland)
        } else if n == 154 {
            Some(DxccEntityCode::YemenArabRepublicDeleted)
        } else if n == 155 {
            Some(DxccEntityCode::MalayaDeleted)
        } else if n == 157 {
            Some(DxccEntityCode::Nauru)
        } else if n == 158 {
            Some(DxccEntityCode::Vanuatu)
        } else if n == 159 {
            Some(DxccEntityCode::Maldives)
        } else if n == 160 {
            Some(DxccEntityCode::Tonga)
        } else if n == 161 {
            Some(DxccEntityCode::MalpeloIsland)
        } else if n == 162 {
            Some(DxccEntityCode::NewCaledonia)
        } else if n == 163 {
            Some(DxccEntityCode::PapuaNewGuinea)
        } else if n == 164 {
            Some(DxccEntityCode::ManchuriaDeleted)
        } else if n == 165 {
            Some(DxccEntityCode::Mauritius)
        } else if n == 166 {
            Some(DxccEntityCode::MarianaIsland)
        } else if n == 167 {
            Some(DxccEntityCode::MarketReef)
        } else if n == 168 {
            Some(DxccEntityCode::MarshallIsland)
        } else if n == 169 {
            Some(DxccEntityCode::Mayotte)
        } else if n == 170 {
            Some(DxccEntityCode::NewZealand)
        } else if n == 171 {
            Some(DxccEntityCode::MellishReef)
        } else if n == 172 {
            Some(DxccEntityCode::PitcairnIsland)
        } else if n == 173 {
            Some(DxccEntityCode::Micronesia)
        } else if n == 174 {
            Some(DxccEntityCode::MidwayIsland)
        } else if n == 175 {
            Some(DxccEntityCode::FrenchPolynesia)
        } else if n == 176 {
            Some(DxccEntityCode::Fiji)
        } else if n == 177 {
            Some(DxccEntityCode::MinamiTorishima)
        } else if n == 178 {
            Some(DxccEntityCode::MinervaReefDeleted)
        } else if n == 179 {
            Some(DxccEntityCode::Moldova)
        } else if n == 180 {
            Some(DxccEntityCode::MountAthos)
        } else if n == 181 {
            Some(DxccEntityCode::Mozambique)
        } else if n == 182 {
            Some(DxccEntityCode::NavassaIsland)
        } else if n == 183 {
            Some(DxccEntityCode::NetherlandsBorneoDeleted)
        } else if n == 184 {
            Some(DxccEntityCode::NetherlandsNewGuineaDeleted)
        } else if n == 185 {
            Some(DxccEntityCode::SolomonIsland)
        } else if n == 186 {
            Some(DxccEntityCode::NewfoundlandLabradorDeleted)
        } else if n == 187 {
            Some(DxccEntityCode::Niger)
        } else if n == 188 {
            Some(DxccEntityCode::Niue)
        } else if n == 189 {
            Some(DxccEntityCode::NorfolkIsland)
        } else if n == 190 {
            Some(DxccEntityCode::Samoa)
        } else if n == 191 {
            Some(DxccEntityCode::NorthCookIsland)
        } else if n == 192 {
            Some(DxccEntityCode::Ogasawara)
        } else if n == 193 {
            Some(DxccEntityCode::OkinawaRyukyuIslandDeleted)
        } else if n == 194 {
            Some(DxccEntityCode::OkinoToriShimaDeleted)
        } else if n == 195 {
            Some(DxccEntityCode::AnnobonIsland)
        } else if n == 196 {
            Some(DxccEntityCode::PalestineDeleted)
        } else if n == 197 {
            Some(DxccEntityCode::PalmyraAndJarvisIsland)
        } else if n == 198 {
            Some(DxccEntityCode::PapuaTerritoryDeleted)
        } else if n == 199 {
            Some(DxccEntityCode::PeterIsland)
        } else if n == 200 {
            Some(DxccEntityCode::PortugueseTimorDeleted)
        } else if n == 201 {
            Some(DxccEntityCode::PrinceEdwardAndMarionIsland)
        } else if n == 202 {
            Some(DxccEntityCode::PuertoRico)
        } else if n == 203 {
            Some(DxccEntityCode::Andorra)
        } else if n == 204 {
            Some(DxccEntityCode::Revillagigedo)
        } else if n == 205 {
            Some(DxccEntityCode::AscensionIsland)
        } else if n == 206 {
            Some(DxccEntityCode::Austria)
        } else if n == 207 {
            Some(DxccEntityCode::RodriguezIsland)
        } else if n == 208 {
            Some(DxccEntityCode::RuandaUrundiDeleted)
        } else if n == 209 {
            Some(DxccEntityCode::Belgium)
        } else if n == 210 {
            Some(DxccEntityCode::SaarDeleted)
        } else if n == 211 {
            Some(DxccEntityCode::SableIsland)
        } else if n == 212 {
            Some(DxccEntityCode::Bulgaria)
        } else if n == 213 {
            Some(DxccEntityCode::SaintMartin)
        } else if n == 214 {
            Some(DxccEntityCode::Corsica)
        } else if n == 215 {
            Some(DxccEntityCode::Cyprus)
        } else if n == 216 {
            Some(DxccEntityCode::SanAndresAndProvidencia)
        } else if n == 217 {
            Some(DxccEntityCode::SanFelixAndSanAmbrosio)
        } else if n == 218 {
            Some(DxccEntityCode::CzechoslovakiaDeleted)
        } else if n == 219 {
            Some(DxccEntityCode::SaoTomeAndPrincipe)
        } else if n == 220 {
            Some(DxccEntityCode::SarawakDeleted)
        } else if n == 221 {
            Some(DxccEntityCode::Denmark)
        } else if n == 222 {
            Some(DxccEntityCode::FaroeIsland)
        } else if n == 223 {
            Some(DxccEntityCode::England)
        } else if n == 224 {
            Some(DxccEntityCode::Finland)
        } else if n == 225 {
            Some(DxccEntityCode::Sardinia)
        } else if n == 226 {
            Some(DxccEntityCode::SaudiArabiaIraqNeutralZoneDeleted)
        } else if n == 227 {
            Some(DxccEntityCode::France)
        } else if n == 228 {
            Some(DxccEntityCode::SerranaBankAndRoncadorCayDeleted)
        } else if n == 229 {
            Some(DxccEntityCode::GermanDemocraticRepublicDeleted)
        } else if n == 230 {
            Some(DxccEntityCode::FederalRepublicOfGermany)
        } else if n == 231 {
            Some(DxccEntityCode::SikkimDeleted)
        } else if n == 232 {
            Some(DxccEntityCode::Somalia)
        } else if n == 233 {
            Some(DxccEntityCode::Gibraltar)
        } else if n == 234 {
            Some(DxccEntityCode::SouthCookIsland)
        } else if n == 235 {
            Some(DxccEntityCode::SouthGeorgiaIsland)
        } else if n == 236 {
            Some(DxccEntityCode::Greece)
        } else if n == 237 {
            Some(DxccEntityCode::Greenland)
        } else if n == 238 {
            Some(DxccEntityCode::SouthOrkneyIsland)
        } else if n == 239 {
            Some(DxccEntityCode::Hungary)
        } else if n == 240 {
            Some(DxccEntityCode::SouthSandwichIsland)
        } else if n == 241 {
            Some(DxccEntityCode::SouthShetlandIsland)
        } else if n == 242 {
            Some(DxccEntityCode::Iceland)
        } else if n == 243 {
            Some(DxccEntityCode::PeopleSDemocraticRepOfYemenDeleted)
        } else if n == 244 {
            Some(DxccEntityCode::SouthernSudanDeleted)
        } else if n == 245 {
            Some(DxccEntityCode::Ireland)
        } else if n == 246 {
            Some(DxccEntityCode::SovereignMilitaryOrderOfMalta)
        } else if n == 247 {
            Some(DxccEntityCode::SpratlyIsland)
        } else if n == 248 {
            Some(DxccEntityCode::Italy)
        } else if n == 249 {
            Some(DxccEntityCode::StKittsAndNevis)
        } else if n == 250 {
            Some(DxccEntityCode::StHelena)
        } else if n == 251 {
            Some(DxccEntityCode::Liechtenstein)
        } else if n == 252 {
            Some(DxccEntityCode::StPaulIsland)
        } else if n == 253 {
            Some(DxccEntityCode::StPeterAndStPaulRocks)
        } else if n == 254 {
            Some(DxccEntityCode::Luxembourg)
        } else if n == 255 {
            Some(DxccEntityCode::StMaartenSabaStEustatiusDeleted)
        } else if n == 256 {
            Some(DxccEntityCode::MadeiraIsland)
        } else if n == 257 {
            Some(DxccEntityCode::Malta)
        } else if n == 258 {
            Some(DxccEntityCode::SumatraDeleted)
        } else if n == 259 {
            Some(DxccEntityCode::Svalbard)
        } else if n == 260 {
            Some(DxccEntityCode::Monaco)
        } else if n == 261 {
            Some(DxccEntityCode::SwanIslandDeleted)
        } else if n == 262 {
            Some(DxccEntityCode::Tajikistan)
        } else if n == 263 {
            Some(DxccEntityCode::Netherlands)
        } else if n == 264 {
            Some(DxccEntityCode::TangierDeleted)
        } else if n == 265 {
            Some(DxccEntityCode::NorthernIreland)
        } else if n == 266 {
            Some(DxccEntityCode::Norway)
        } else if n == 267 {
            Some(DxccEntityCode::TerritoryOfNewGuineaDeleted)
        } else if n == 268 {
            Some(DxccEntityCode::TibetDeleted)
        } else if n == 269 {
            Some(DxccEntityCode::Poland)
        } else if n == 270 {
            Some(DxccEntityCode::TokelauIsland)
        } else if n == 271 {
            Some(DxccEntityCode::TriesteDeleted)
        } else if n == 272 {
            Some(DxccEntityCode::Portugal)
        } else if n == 273 {
            Some(DxccEntityCode::TrindadeAndMartimVazIsland)
        } else if n == 274 {
            Some(DxccEntityCode::TristanDaCunhaAndGoughIsland)
        } else if n == 275 {
            Some(DxccEntityCode::Romania)
        } else if n == 276 {
            Some(DxccEntityCode::TromelinIsland)
        } else if n == 277 {
            Some(DxccEntityCode::StPierreAndMiquelon)
        } else if n == 278 {
            Some(DxccEntityCode::SanMarino)
        } else if n == 279 {
            Some(DxccEntityCode::Scotland)
        } else if n == 280 {
            Some(DxccEntityCode::Turkmenistan)
        } else if n == 281 {
            Some(DxccEntityCode::Spain)
        } else if n == 282 {
            Some(DxccEntityCode::Tuvalu)
        } else if n == 283 {
            Some(DxccEntityCode::UkSovereignBaseAreasOnCyprus)
        } else if n == 284 {
            Some(DxccEntityCode::Sweden)
        } else if n == 285 {
            Some(DxccEntityCode::VirginIsland)
        } else if n == 286 {
            Some(DxccEntityCode::Uganda)
        } else if n == 287 {
            Some(DxccEntityCode::Switzerland)
        } else if n == 288 {
            Some(DxccEntityCode::Ukraine)
        } else if n == 289 {
            Some(DxccEntityCode::UnitedNationsHq)
        } else if n == 291 {
            Some(DxccEntityCode::UnitedStatesOfAmerica)
        } else if n == 292 {
            Some(DxccEntityCode::Uzbekistan)
        } else if n == 293 {
            Some(DxccEntityCode::VietNam)
        } else if n == 294 {
            Some(DxccEntityCode::Wales)
        } else if n == 295 {
            Some(DxccEntityCode::Vatican)
        } else if n == 296 {
            Some(DxccEntityCode::Serbia)
        } else if n == 297 {
            Some(DxccEntityCode::WakeIsland)
        } else if n == 298 {
            Some(DxccEntityCode::WallisAndFutunaIsland)
        } else if n == 299 {
            Some(DxccEntityCode::WestMalaysia)
        } else if n == 301 {
            Some(DxccEntityCode::WKiribatiGilbertIsland)
        } else if n == 302 {
            Some(DxccEntityCode::WesternSahara)
        } else if n == 303 {
            Some(DxccEntityCode::WillisIsland)
        } else if n == 304 {
            Some(DxccEntityCode::Bahrain)
        } else if n == 305 {
            Some(DxccEntityCode::Bangladesh)
        } else if n == 306 {
            Some(DxccEntityCode::Bhutan)
        } else if n == 307 {
            Some(DxccEntityCode::ZanzibarDeleted)
        } else if n == 308 {
            Some(DxccEntityCode::CostaRica)
        } else if n == 309 {
            Some(DxccEntityCode::Myanmar)
        } else if n == 312 {
            Some(DxccEntityCode::Cambodia)
        } else if n == 315 {
            Some(DxccEntityCode::SriLanka)
        } else if n == 318 {
            Some(DxccEntityCode::China)
        } else if n == 321 {
            Some(DxccEntityCode::HongKong)
        } else if n == 324 {
            Some(DxccEntityCode::India)
        } else if n == 327 {
            Some(DxccEntityCode::Indonesia)
        } else if n == 330 {
            Some(DxccEntityCode::Iran)
        } else if n == 333 {
            Some(DxccEntityCode::Iraq)
        } else if n == 336 {
            Some(DxccEntityCode::Israel)
        } else if n == 339 {
            Some(DxccEntityCode::Japan)
        } else if n == 342 {
            Some(DxccEntityCode::Jordan)
        } else if n == 344 {
            Some(DxccEntityCode::DemocraticPeopleSRepOfKorea)
        } else if n == 345 {
            Some(DxccEntityCode::BruneiDarussalam)
        } else if n == 348 {
            Some(DxccEntityCode::Kuwait)
        } else if n == 354 {
            Some(DxccEntityCode::Lebanon)
        } else if n == 363 {
            Some(DxccEntityCode::Mongolia)
        } else if n == 369 {
            Some(DxccEntityCode::Nepal)
        } else if n == 370 {
            Some(DxccEntityCode::Oman)
        } else if n == 372 {
            Some(DxccEntityCode::Pakistan)
        } else if n == 375 {
            Some(DxccEntityCode::Philippines)
        } else if n == 376 {
            Some(DxccEntityCode::Qatar)
        } else if n == 378 {
            Some(DxccEntityCode::SaudiArabia)
        } else if n == 379 {
            Some(DxccEntityCode::Seychelles)
        } else if n == 381 {
            Some(DxccEntityCode::Singapore)
        } else if n == 382 {
            Some(DxccEntityCode::Djibouti)
        } else if n == 384 {
            Some(DxccEntityCode::Syria)
        } else if n == 386 {
            Some(DxccEntityCode::Taiwan)
        } else if n == 387 {
            Some(DxccEntityCode::Thailand)
        } else if n == 390 {
            Some(DxccEntityCode::Turkey)
        } else if n == 391 {
            Some(DxccEntityCode::UnitedArabEmirates)
        } else if n == 400 {
            Some(DxccEntityCode::Algeria)
        } else if n == 401 {
            Some(DxccEntityCode::Angola)
        } else if n == 402 {
            Some(DxccEntityCode::Botswana)
        } else if n == 404 {
            Some(DxccEntityCode::Burundi)
        } else if n == 406 {
            Some(DxccEntityCode::Cameroon)
        } else if n == 408 {
            Some(DxccEntityCode::CentralAfrica)
        } else if n == 409 {
            Some(DxccEntityCode::CapeVerde)
        } else if n == 410 {
            Some(DxccEntityCode::Chad)
        } else if n == 411 {
            Some(DxccEntityCode::Comoros)
        } else if n == 412 {
            Some(DxccEntityCode::RepublicOfTheCongo)
        } else if n == 414 {
            Some(DxccEntityCode::DemocraticRepublicOfTheCongo)
        } else if n == 416 {
            Some(DxccEntityCode::Benin)
        } else if n == 420 {
            Some(DxccEntityCode::Gabon)
        } else if n == 422 {
            Some(DxccEntityCode::TheGambia)
        } else if n == 424 {
            Some(DxccEntityCode::Ghana)
        } else if n == 428 {
            Some(DxccEntityCode::CoteDIvoire)
        } else if n == 430 {
            Some(DxccEntityCode::Kenya)
        } else if n == 432 {
            Some(DxccEntityCode::Lesotho)
        } else if n == 434 {
            Some(DxccEntityCode::Liberia)
        } else if n == 436 {
            Some(DxccEntityCode::Libya)
        } else if n == 438 {
            Some(DxccEntityCode::Madagascar)
        } else if n == 440 {
            Some(DxccEntityCode::Malawi)
        } else if n == 442 {
            Some(DxccEntityCode::Mali)
        } else if n == 444 {
            Some(DxccEntityCode::Mauritania)
        } else if n == 446 {
            Some(DxccEntityCode::Morocco)
        } else if n == 450 {
            Some(DxccEntityCode::Nigeria)
        } else if n == 452 {
            Some(DxccEntityCode::Zimbabwe)
        } else if n == 453 {
            Some(DxccEntityCode::ReunionIsland)
        } else if n == 454 {
            Some(DxccEntityCode::Rwanda)
        } else if n == 456 {
            Some(DxccEntityCode::Senegal)
        } else if n == 458 {
            Some(DxccEntityCode::SierraLeone)
        } else if n == 460 {
            Some(DxccEntityCode::RotumaIsland)
        } else if n == 462 {
            Some(DxccEntityCode::SouthAfrica)
        } else if n == 464 {
            Some(DxccEntityCode::Namibia)
        } else if n == 466 {
            Some(DxccEntityCode::Sudan)
        } else if n == 468 {
            Some(DxccEntityCode::Swaziland)
        } else if n == 470 {
            Some(DxccEntityCode::Tanzania)
        } else if n == 474 {
            Some(DxccEntityCode::Tunisia)
        } else if n == 478 {
            Some(DxccEntityCode::Egypt)
        } else if n == 480 {
            Some(DxccEntityCode::BurkinaFaso)
        } else if n == 482 {
            Some(DxccEntityCode::Zambia)
        } else if n == 483 {
            Some(DxccEntityCode::Togo)
        } else if n == 488 {
            Some(DxccEntityCode::WalvisBayDeleted)
        } else if n == 489 {
            Some(DxccEntityCode::ConwayReef)
        } else if n == 490 {
            Some(DxccEntityCode::BanabaIslandOceanIsland)
        } else if n == 492 {
            Some(DxccEntityCode::Yemen)
        } else if n == 493 {
            Some(DxccEntityCode::PenguinIslandDeleted)
        } else if n == 497 {
            Some(DxccEntityCode::Croatia)
        } else if n == 499 {
            Some(DxccEntityCode::Slovenia)
        } else if n == 501 {
            Some(DxccEntityCode::BosniaHerzegovina)
        } else if n == 502 {
            Some(DxccEntityCode::Macedonia)
        } else if n == 503 {
            Some(DxccEntityCode::CzechRepublic)
        } else if n == 504 {
            Some(DxccEntityCode::SlovakRepublic)
        } else if n == 505 {
            Some(DxccEntityCode::PratasIsland)
        } else if n == 506 {
            Some(DxccEntityCode::ScarboroughReef)
        } else if n == 507 {
            Some(DxccEntityCode::TemotuProvince)
        } else if n == 508 {
            Some(DxccEntityCode::AustralIsland)
        } else if n == 509 {
            Some(DxccEntityCode::MarquesasIsland)
        } else if n == 510 {
            Some(DxccEntityCode::Palestine)
        } else if n == 511 {
            Some(DxccEntityCode::TimorLeste)
        } else if n == 512 {
            Some(DxccEntityCode::ChesterfieldIsland)
        } else if n == 513 {
            Some(DxccEntityCode::DucieIsland)
        } else if n == 514 {
            Some(DxccEntityCode::Montenegro)
        } else if n == 515 {
            Some(DxccEntityCode::SwainsIsland)
        } else if n == 516 {
            Some(DxccEntityCode::SaintBarthelemy)
        } else if n == 517 {
            Some(DxccEntityCode::Curacao)
        } else if n == 518 {
            Some(DxccEntityCode::StMaarten)
        } else if n == 519 {
            Some(DxccEntityCode::SabaAndStEustatius)
        } else if n == 520 {
            Some(DxccEntityCode::Bonaire)
        } else if n == 521 {
            Some(DxccEntityCode::SouthSudanRepublicOf)
        } else if n == 522 {
            Some(DxccEntityCode::RepublicOfKosovo)
        } else {
            None
        }
    }

    /// The entity's code number.
    pub fn code(&self) -> (r: u64)
        ensures
            r == self.spec_code(),
    {
        match self {
            DxccEntityCode::NoEntity => 0,
            DxccEntityCode::Canada => 1,
            DxccEntityCode::AbuAilIslandDeleted => 2,
            DxccEntityCode::Afghanistan => 3,
            DxccEntityCode::AgalegaAndStBrandonIsland => 4,
            DxccEntityCode::AlandIsland => 5,
            DxccEntityCode::Alaska => 6,
            DxccEntityCode::Albania => 7,
            DxccEntityCode::AldabraDeleted => 8,
            DxccEntityCode::AmericanSamoa => 9,
            DxccEntityCode::AmsterdamAndStPaulIsland => 10,
            DxccEntityCode::AndamanAndNicobarIsland => 11,
            DxccEntityCode::Anguilla => 12,
            DxccEntityCode::Antarctica => 13,
            DxccEntityCode::Armenia => 14,
            DxccEntityCode::AsiaticRussia => 15,
            DxccEntityCode::NewZealandSubantarcticIslands => 16,
            DxccEntityCode::AvesIsland => 17,
            DxccEntityCode::Azerbaijan => 18,
            DxccEntityCode::BajoNuevoDeleted => 19,
            DxccEntityCode::BakerAndHowlandIsland => 20,
            DxccEntityCode::BalearicIsland => 21,
            DxccEntityCode::Palau => 22,
            DxccEntityCode::BlenheimReefDeleted => 23,
            DxccEntityCode::Bouvet => 24,
            DxccEntityCode::BritishNorthBorneoDeleted => 25,
            DxccEntityCode::BritishSomalilandDeleted => 26,
            DxccEntityCode::Belarus => 27,
            DxccEntityCode::CanalZoneDeleted => 28,
            DxccEntityCode::CanaryIsland => 29,
            DxccEntityCode::CelebeAndMoluccaIslandDeleted => 30,
            DxccEntityCode::CKiribatiBritishPhoenixIsland => 31,
            DxccEntityCode::CeutaAndMelilla => 32,
            DxccEntityCode::ChagosIsland => 33,
            DxccEntityCode::ChathamIsland => 34,
            DxccEntityCode::ChristmasIsland => 35,
            DxccEntityCode::ClippertonIsland => 36,
            DxccEntityCode::CocosIsland => 37,
            DxccEntityCode::CocosKeelingIsland => 38,
            DxccEntityCode::ComorosDeleted => 39,
            DxccEntityCode::Crete => 40,
            DxccEntityCode::CrozetIsland => 41,
            DxccEntityCode::DamaoDiuDeleted => 42,
            DxccEntityCode::DesecheoIsland => 43,
            DxccEntityCode::DesrochesDeleted => 44,
            DxccEntityCode::Dodecanese => 45,
            DxccEntityCode::EastMalaysia => 46,
            DxccEntityCode::EasterIsland => 47,
            DxccEntityCode::EKiribatiLineIsland => 48,
            DxccEntityCode::EquatorialGuinea => 49,
            DxccEntityCode::Mexico => 50,
            DxccEntityCode::Eritrea => 51,
            DxccEntityCode::Estonia => 52,
            DxccEntityCode::Ethiopia => 53,
            DxccEntityCode::EuropeanRussia => 54,
            DxccEntityCode::FarquharDeleted => 55,
            DxccEntityCode::FernandoDeNoronha => 56,
            DxccEntityCode::FrenchEquatorialAfricaDeleted => 57,
            DxccEntityCode::FrenchIndoChinaDeleted => 58,
            DxccEntityCode::FrenchWestAfricaDeleted => 59,
            DxccEntityCode::Bahamas => 60,
            DxccEntityCode::FranzJosefLand => 61,
            DxccEntityCode::Barbados => 62,
            DxccEntityCode::FrenchGuiana => 63,
            DxccEntityCode::Bermuda => 64,
            DxccEntityCode::BritishVirginIsland => 65,
            DxccEntityCode::Belize => 66,
            DxccEntityCode::FrenchIndiaDeleted => 67,
            DxccEntityCode::KuwaitSaudiArabiaNeutralZoneDeleted => 68,
            DxccEntityCode::CaymanIsland => 69,
            DxccEntityCode::Cuba => 70,
            DxccEntityCode::GalapagosIsland => 71,
            DxccEntityCode::DominicanRepublic => 72,
            DxccEntityCode::ElSalvador => 74,
            DxccEntityCode::Georgia => 75,
            DxccEntityCode::Guatemala => 76,
            DxccEntityCode::Grenada => 77,
            DxccEntityCode::Haiti => 78,
            DxccEntityCode::Guadeloupe => 79,
            DxccEntityCode::Honduras => 80,
            DxccEntityCode::GermanyDeleted => 81,
            DxccEntityCode::Jamaica => 82,
            DxccEntityCode::Martinique => 84,
            DxccEntityCode::BonaireCuracaoDeleted => 85,
            DxccEntityCode::Nicaragua => 86,
            DxccEntityCode::Panama => 88,
            DxccEntityCode::TurksAndCaicosIsland => 89,
            DxccEntityCode::TrinidadAndTobago => 90,
            DxccEntityCode::Aruba => 91,
            DxccEntityCode::GeyserReefDeleted => 93,
            DxccEntityCode::AntiguaAndBarbuda => 94,
            DxccEntityCode::Dominica => 95,
            DxccEntityCode::Montserrat => 96,
            DxccEntityCode::StLucia => 97,
            DxccEntityCode::StVincent => 98,
            DxccEntityCode::GloriosoIsland => 99,
            DxccEntityCode::Argentina => 100,
            DxccEntityCode::GoaDeleted => 101,
            DxccEntityCode::GoldCoastTogolandDeleted => 102,
            DxccEntityCode::Guam => 103,
            DxccEntityCode::Bolivia => 104,
            DxccEntityCode::GuantanamoBay => 105,
            DxccEntityCode::Guernsey => 106,
            DxccEntityCode::Guinea => 107,
            DxccEntityCode::Brazil => 108,
            DxccEntityCode::GuineaBissau => 109,
            DxccEntityCode::Hawaii => 110,
            DxccEntityCode::HeardIsland => 111,
            DxccEntityCode::Chile => 112,
            DxccEntityCode::IfniDeleted => 113,
            DxccEntityCode::IsleOfMan => 114,
            DxccEntityCode::ItalianSomalilandDeleted => 115,
            DxccEntityCode::Colombia => 116,
            DxccEntityCode::ItuHq => 117,
            DxccEntityCode::JanMayen => 118,
            DxccEntityCode::JavaDeleted => 119,
            DxccEntityCode::Ecuador => 120,
            DxccEntityCode::Jersey => 122,
            DxccEntityCode::JohnstonIsland => 123,
            DxccEntityCode::JuanDeNovaEuropa => 124,
            DxccEntityCode::JuanFernandezIsland => 125,
            DxccEntityCode::Kaliningrad => 126,
            DxccEntityCode::KamaranIslandDeleted => 127,
            DxccEntityCode::KareloFinnishRepublicDeleted => 128,
            DxccEntityCode::Guyana => 129,
            DxccEntityCode::Kazakhstan => 130,
            DxccEntityCode::KerguelenIsland => 131,
            DxccEntityCode::Paraguay => 132,
            DxccEntityCode::KermadecIsland => 133,
            DxccEntityCode::KingmanReefDeleted => 134,
            DxccEntityCode::Kyrgyzstan => 135,
            DxccEntityCode::Peru => 136,
            DxccEntityCode::RepublicOfKorea => 137,
            DxccEntityCode::KureIsland => 138,
            DxccEntityCode::KuriaMuriaIslandDeleted => 139,
            DxccEntityCode::Suriname => 140,
            DxccEntityCode::FalklandIsland => 141,
            DxccEntityCode::LakshadweepIsland => 142,
            DxccEntityCode::Laos => 143,
            DxccEntityCode::Uruguay => 144,
            DxccEntityCode::Latvia => 145,
            DxccEntityCode::Lithuania => 146,
            DxccEntityCode::LordHoweIsland => 147,
            DxccEntityCode::Venezuela => 148,
            DxccEntityCode::Azores => 149,
            DxccEntityCode::Australia => 150,
            DxccEntityCode::MalyjVysotskijIslandDeleted => 151,
            DxccEntityCode::Macao => 152,
            DxccEntityCode::MacquarieIsland => 153,
            DxccEntityCode::YemenArabRepublicDeleted => 154,
            DxccEntityCode::MalayaDeleted => 155,
            DxccEntityCode::Nauru => 157,
            DxccEntityCode::Vanuatu => 158,
            DxccEntityCode::Maldives => 159,
            DxccEntityCode::Tonga => 160,
            DxccEntityCode::MalpeloIsland => 161,
            DxccEntityCode::NewCaledonia => 162,
            DxccEntityCode::PapuaNewGuinea => 163,
            DxccEntityCode::ManchuriaDeleted => 164,
            DxccEntityCode::Mauritius => 165,
            DxccEntityCode::MarianaIsland => 166,
            DxccEntityCode::MarketReef => 167,
            DxccEntityCode::MarshallIsland => 168,
            DxccEntityCode::Mayotte => 169,
            DxccEntityCode::NewZealand => 170,
            DxccEntityCode::MellishReef => 171,
            DxccEntityCode::PitcairnIsland => 172,
            DxccEntityCode::Micronesia => 173,
            DxccEntityCode::MidwayIsland => 174,
            DxccEntityCode::FrenchPolynesia => 175,
            DxccEntityCode::Fiji => 176,
            DxccEntityCode::MinamiTorishima => 177,
            DxccEntityCode::MinervaReefDeleted => 178,
            DxccEntityCode::Moldova => 179,
            DxccEntityCode::MountAthos => 180,
            DxccEntityCode::Mozambique => 181,
            DxccEntityCode::NavassaIsland => 182,
            DxccEntityCode::NetherlandsBorneoDeleted => 183,
            DxccEntityCode::NetherlandsNewGuineaDeleted => 184,
            DxccEntityCode::SolomonIsland => 185,
            DxccEntityCode::NewfoundlandLabradorDeleted => 186,
            DxccEntityCode::Niger => 187,
            DxccEntityCode::Niue => 188,
            DxccEntityCode::NorfolkIsland => 189,
            DxccEntityCode::Samoa => 190,
            DxccEntityCode::NorthCookIsland => 191,
            DxccEntityCode::Ogasawara => 192,
            DxccEntityCode::OkinawaRyukyuIslandDeleted => 193,
            DxccEntityCode::OkinoToriShimaDeleted => 194,
            DxccEntityCode::AnnobonIsland => 195,
            DxccEntityCode::PalestineDeleted => 196,
            DxccEntityCode::PalmyraAndJarvisIsland => 197,
            DxccEntityCode::PapuaTerritoryDeleted => 198,
            DxccEntityCode::PeterIsland => 199,
            DxccEntityCode::PortugueseTimorDeleted => 200,
            DxccEntityCode::PrinceEdwardAndMarionIsland => 201,
            DxccEntityCode::PuertoRico => 202,
            DxccEntityCode::Andorra => 203,
            DxccEntityCode::Revillagigedo => 204,
            DxccEntityCode::AscensionIsland => 205,
            DxccEntityCode::Austria => 206,
            DxccEntityCode::RodriguezIsland => 207,
            DxccEntityCode::RuandaUrundiDeleted => 208,
            DxccEntityCode::Belgium => 209,
            DxccEntityCode::SaarDeleted => 210,
            DxccEntityCode::SableIsland => 211,
            DxccEntityCode::Bulgaria => 212,
            DxccEntityCode::SaintMartin => 213,
            DxccEntityCode::Corsica => 214,
            DxccEntityCode::Cyprus => 215,
            DxccEntityCode::SanAndresAndProvidencia => 216,
            DxccEntityCode::SanFelixAndSanAmbrosio => 217,
            DxccEntityCode::CzechoslovakiaDeleted => 218,
            DxccEntityCode::SaoTomeAndPrincipe => 219,
            DxccEntityCode::SarawakDeleted => 220,
            DxccEntityCode::Denmark => 221,
            DxccEntityCode::FaroeIsland => 222,
            DxccEntityCode::England => 223,
            DxccEntityCode::Finland => 224,
            DxccEntityCode::Sardinia => 225,
            DxccEntityCode::SaudiArabiaIraqNeutralZoneDeleted => 226,
            DxccEntityCode::France => 227,
            DxccEntityCode::SerranaBankAndRoncadorCayDeleted => 228,
            DxccEntityCode::GermanDemocraticRepublicDeleted => 229,
            DxccEntityCode::FederalRepublicOfGermany => 230,
            DxccEntityCode::SikkimDeleted => 231,
            DxccEntityCode::Somalia => 232,
            DxccEntityCode::Gibraltar => 233,
            DxccEntityCode::SouthCookIsland => 234,
            DxccEntityCode::SouthGeorgiaIsland => 235,
            DxccEntityCode::Greece => 236,
            DxccEntityCode::Greenland => 237,
            DxccEntityCode::SouthOrkneyIsland => 238,
            DxccEntityCode::Hungary => 239,
            DxccEntityCode::SouthSandwichIsland => 240,
            DxccEntityCode::SouthShetlandIsland => 241,
            DxccEntityCode::Iceland => 242,
            DxccEntityCode::PeopleSDemocraticRepOfYemenDeleted => 243,
            DxccEntityCode::SouthernSudanDeleted => 244,
            DxccEntityCode::Ireland => 245,
            DxccEntityCode::SovereignMilitaryOrderOfMalta => 246,
            DxccEntityCode::SpratlyIsland => 247,
            DxccEntityCode::Italy => 248,
            DxccEntityCode::StKittsAndNevis => 249,
            DxccEntityCode::StHelena => 250,
            DxccEntityCode::Liechtenstein => 251,
            DxccEntityCode::StPaulIsland => 252,
            DxccEntityCode::StPeterAndStPaulRocks => 253,
            DxccEntityCode::Luxembourg => 254,
            DxccEntityCode::StMaartenSabaStEustatiusDeleted => 255,
            DxccEntityCode::MadeiraIsland => 256,
            DxccEntityCode::Malta => 257,
            DxccEntityCode::SumatraDeleted => 258,
            DxccEntityCode::Svalbard => 259,
            DxccEntityCode::Monaco => 260,
            DxccEntityCode::SwanIslandDeleted => 261,
            DxccEntityCode::Tajikistan => 262,
            DxccEntityCode::Netherlands => 263,
            DxccEntityCode::TangierDeleted => 264,
            DxccEntityCode::NorthernIreland => 265,
            DxccEntityCode::Norway => 266,
            DxccEntityCode::TerritoryOfNewGuineaDeleted => 267,
            DxccEntityCode::TibetDeleted => 268,
            DxccEntityCode::Poland => 269,
            DxccEntityCode::TokelauIsland => 270,
            DxccEntityCode::TriesteDeleted => 271,
            DxccEntityCode::Portugal => 272,
            DxccEntityCode::TrindadeAndMartimVazIsland => 273,
            DxccEntityCode::TristanDaCunhaAndGoughIsland => 274,
            DxccEntityCode::Romania => 275,
            DxccEntityCode::TromelinIsland => 276,
            DxccEntityCode::StPierreAndMiquelon => 277,
            DxccEntityCode::SanMarino => 278,
            DxccEntityCode::Scotland => 279,
            DxccEntityCode::Turkmenistan => 280,
            DxccEntityCode::Spain => 281,
            DxccEntityCode::Tuvalu => 282,
            DxccEntityCode::UkSovereignBaseAreasOnCyprus => 283,
            DxccEntityCode::Sweden => 284,
            DxccEntityCode::VirginIsland => 285,
            DxccEntityCode::Uganda => 286,
            DxccEntityCode::Switzerland => 287,
            DxccEntityCode::Ukraine => 288,
            DxccEntityCode::UnitedNationsHq => 289,
            DxccEntityCode::UnitedStatesOfAmerica => 291,
            DxccEntityCode::Uzbekistan => 292,
            DxccEntityCode::VietNam => 293,
            DxccEntityCode::Wales => 294,
            DxccEntityCode::Vatican => 295,
            DxccEntityCode::Serbia => 296,
            DxccEntityCode::WakeIsland => 297,
            DxccEntityCode::WallisAndFutunaIsland => 298,
            DxccEntityCode::WestMalaysia => 299,
            DxccEntityCode::WKiribatiGilbertIsland => 301,
            DxccEntityCode::WesternSahara => 302,
            DxccEntityCode::WillisIsland => 303,
            DxccEntityCode::Bahrain => 304,
            DxccEntityCode::Bangladesh => 305,
            DxccEntityCode::Bhutan => 306,
            DxccEntityCode::ZanzibarDeleted => 307,
            DxccEntityCode::CostaRica => 308,
            DxccEntityCode::Myanmar => 309,
            DxccEntityCode::Cambodia => 312,
            DxccEntityCode::SriLanka => 315,
            DxccEntityCode::China => 318,
            DxccEntityCode::HongKong => 321,
            DxccEntityCode::India => 324,
            DxccEntityCode::Indonesia => 327,
            DxccEntityCode::Iran => 330,
            DxccEntityCode::Iraq => 333,
            DxccEntityCode::Israel => 336,
            DxccEntityCode::Japan => 339,
            DxccEntityCode::Jordan => 342,
            DxccEntityCode::DemocraticPeopleSRepOfKorea => 344,
            DxccEntityCode::BruneiDarussalam => 345,
            DxccEntityCode::Kuwait => 348,
            DxccEntityCode::Lebanon => 354,
            DxccEntityCode::Mongolia => 363,
            DxccEntityCode::Nepal => 369,
            DxccEntityCode::Oman => 370,
            DxccEntityCode::Pakistan => 372,
            DxccEntityCode::Philippines => 375,
            DxccEntityCode::Qatar => 376,
            DxccEntityCode::SaudiArabia => 378,
            DxccEntityCode::Seychelles => 379,
            DxccEntityCode::Singapore => 381,
            DxccEntityCode::Djibouti => 382,
            DxccEntityCode::Syria => 384,
            DxccEntityCode::Taiwan => 386,
            DxccEntityCode::Thailand => 387,
            DxccEntityCode::Turkey => 390,
            DxccEntityCode::UnitedArabEmirates => 391,
            DxccEntityCode::Algeria => 400,
            DxccEntityCode::Angola => 401,
            DxccEntityCode::Botswana => 402,
            DxccEntityCode::Burundi => 404,
            DxccEntityCode::Cameroon => 406,
            DxccEntityCode::CentralAfrica => 408,
            DxccEntityCode::CapeVerde => 409,
            DxccEntityCode::Chad => 410,
            DxccEntityCode::Comoros => 411,
            DxccEntityCode::RepublicOfTheCongo => 412,
            DxccEntityCode::DemocraticRepublicOfTheCongo => 414,
            DxccEntityCode::Benin => 416,
            DxccEntityCode::Gabon => 420,
            DxccEntityCode::TheGambia => 422,
            DxccEntityCode::Ghana => 424,
            DxccEntityCode::CoteDIvoire => 428,
            DxccEntityCode::Kenya => 430,
            DxccEntityCode::Lesotho => 432,
            DxccEntityCode::Liberia => 434,
            DxccEntityCode::Libya => 436,
            DxccEntityCode::Madagascar => 438,
            DxccEntityCode::Malawi => 440,
            DxccEntityCode::Mali => 442,
            DxccEntityCode::Mauritania => 444,
            DxccEntityCode::Morocco => 446,
            DxccEntityCode::Nigeria => 450,
            DxccEntityCode::Zimbabwe => 452,
            DxccEntityCode::ReunionIsland => 453,
            DxccEntityCode::Rwanda => 454,
            DxccEntityCode::Senegal => 456,
            DxccEntityCode::SierraLeone => 458,
            DxccEntityCode::RotumaIsland => 460,
            DxccEntityCode::SouthAfrica => 462,
            DxccEntityCode::Namibia => 464,
            DxccEntityCode::Sudan => 466,
            DxccEntityCode::Swaziland => 468,
            DxccEntityCode::Tanzania => 470,
            DxccEntityCode::Tunisia => 474,
            DxccEntityCode::Egypt => 478,
            DxccEntityCode::BurkinaFaso => 480,
            DxccEntityCode::Zambia => 482,
            DxccEntityCode::Togo => 483,
            DxccEntityCode::WalvisBayDeleted => 488,
            DxccEntityCode::ConwayReef => 489,
            DxccEntityCode::BanabaIslandOceanIsland => 490,
            DxccEntityCode::Yemen => 492,
            DxccEntityCode::PenguinIslandDeleted => 493,
            DxccEntityCode::Croatia => 497,
            DxccEntityCode::Slovenia => 499,
            DxccEntityCode::BosniaHerzegovina => 501,
            DxccEntityCode::Macedonia => 502,
            DxccEntityCode::CzechRepublic => 503,
            DxccEntityCode::SlovakRepublic => 504,
            DxccEntityCode::PratasIsland => 505,
            DxccEntityCode::ScarboroughReef => 506,
            DxccEntityCode::TemotuProvince => 507,
            DxccEntityCode::AustralIsland => 508,
            DxccEntityCode::MarquesasIsland => 509,
            DxccEntityCode::Palestine => 510,
            DxccEntityCode::TimorLeste => 511,
            DxccEntityCode::ChesterfieldIsland => 512,
            DxccEntityCode::DucieIsland => 513,
            DxccEntityCode::Montenegro => 514,
            DxccEntityCode::SwainsIsland => 515,
            DxccEntityCode::SaintBarthelemy => 516,
            DxccEntityCode::Curacao => 517,
            DxccEntityCode::StMaarten => 518,
            DxccEntityCode::SabaAndStEustatius => 519,
            DxccEntityCode::Bonaire => 520,
            DxccEntityCode::SouthSudanRepublicOf => 521,
            DxccEntityCode::RepublicOfKosovo => 522,
        }
    }

    /// The entity with code number `n`, if there is one.
    pub fn from_code(n: u64) -> (r: Option<DxccEntityCode>)
        ensures
            r == DxccEntityCode::spec_from_code(n as nat),
    {
        match n {
            0 => Some(DxccEntityCode::NoEntity),
            1 => Some(DxccEntityCode::Canada),
            2 => Some(DxccEntityCode::AbuAilIslandDeleted),
            3 => Some(DxccEntityCode::Afghanistan),
            4 => Some(DxccEntityCode::AgalegaAndStBrandonIsland),
            5 => Some(DxccEntityCode::AlandIsland),
            6 => Some(DxccEntityCode::Alaska),
            7 => Some(DxccEntityCode::Albania),
            8 => Some(DxccEntityCode::AldabraDeleted),
            9 => Some(DxccEntityCode::AmericanSamoa),
            10 => Some(DxccEntityCode::AmsterdamAndStPaulIsland),
            11 => Some(DxccEntityCode::AndamanAndNicobarIsland),
            12 => Some(DxccEntityCode::Anguilla),
            13 => Some(DxccEntityCode::Antarctica),
            14 => Some(DxccEntityCode::Armenia),
            15 => Some(DxccEntityCode::AsiaticRussia),
            16 => Some(DxccEntityCode::NewZealandSubantarcticIslands),
            17 => Some(DxccEntityCode::AvesIsland),
            18 => Some(DxccEntityCode::Azerbaijan),
            19 => Some(DxccEntityCode::BajoNuevoDeleted),
            20 => Some(DxccEntityCode::BakerAndHowlandIsland),
            21 => Some(DxccEntityCode::BalearicIsland),
            22 => Some(DxccEntityCode::Palau),
            23 => Some(DxccEntityCode::BlenheimReefDeleted),
            24 => Some(DxccEntityCode::Bouvet),
            25 => Some(DxccEntityCode::BritishNorthBorneoDeleted),
            26 => Some(DxccEntityCode::BritishSomalilandDeleted),
            27 => Some(DxccEntityCode::Belarus),
            28 => Some(DxccEntityCode::CanalZoneDeleted),
            29 => Some(DxccEntityCode::CanaryIsland),
            30 => Some(DxccEntityCode::CelebeAndMoluccaIslandDeleted),
            31 => Some(DxccEntityCode::CKiribatiBritishPhoenixIsland),
            32 => Some(DxccEntityCode::CeutaAndMelilla),
            33 => Some(DxccEntityCode::ChagosIsland),
            34 => Some(DxccEntityCode::ChathamIsland),
            35 => Some(DxccEntityCode::ChristmasIsland),
            36 => Some(DxccEntityCode::ClippertonIsland),
            37 => Some(DxccEntityCode::CocosIsland),
            38 => Some(DxccEntityCode::CocosKeelingIsland),
            39 => Some(DxccEntityCode::ComorosDeleted),
            40 => Some(DxccEntityCode::Crete),
            41 => Some(DxccEntityCode::CrozetIsland),
            42 => Some(DxccEntityCode::DamaoDiuDeleted),
            43 => Some(DxccEntityCode::DesecheoIsland),
            44 => Some(DxccEntityCode::DesrochesDeleted),
            45 => Some(DxccEntityCode::Dodecanese),
            46 => Some(DxccEntityCode::EastMalaysia),
            47 => Some(DxccEntityCode::EasterIsland),
            48 => Some(DxccEntityCode::EKiribatiLineIsland),
            49 => Some(DxccEntityCode::EquatorialGuinea),
            50 => Some(DxccEntityCode::Mexico),
            51 => Some(DxccEntityCode::Eritrea),
            52 => Some(DxccEntityCode::Estonia),
            53 => Some(DxccEntityCode::Ethiopia),
            54 => Some(DxccEntityCode::EuropeanRussia),
            55 => Some(DxccEntityCode::FarquharDeleted),
            56 => Some(DxccEntityCode::FernandoDeNoronha),
            57 => Some(DxccEntityCode::FrenchEquatorialAfricaDeleted),
            58 => Some(DxccEntityCode::FrenchIndoChinaDeleted),
            59 => Some(DxccEntityCode::FrenchWestAfricaDeleted),
            60 => Some(DxccEntityCode::Bahamas),
            61 => Some(DxccEntityCode::FranzJosefLand),
            62 => Some(DxccEntityCode::Barbados),
            63 => Some(DxccEntityCode::FrenchGuiana),
            64 => Some(DxccEntityCode::Bermuda),
            65 => Some(DxccEntityCode::BritishVirginIsland),
            66 => Some(DxccEntityCode::Belize),
            67 => Some(DxccEntityCode::FrenchIndiaDeleted),
            68 => Some(DxccEntityCode::KuwaitSaudiArabiaNeutralZoneDeleted),
            69 => Some(DxccEntityCode::CaymanIsland),
            70 => Some(DxccEntityCode::Cuba),
            71 => Some(DxccEntityCode::GalapagosIsland),
            72 => Some(DxccEntityCode::DominicanRepublic),
            74 => Some(DxccEntityCode::ElSalvador),
            75 => Some(DxccEntityCode::Georgia),
            76 => Some(DxccEntityCode::Guatemala),
            77 => Some(DxccEntityCode::Grenada),
            78 => Some(DxccEntityCode::Haiti),
            79 => Some(DxccEntityCode::Guadeloupe),
            80 => Some(DxccEntityCode::Honduras),
            81 => Some(DxccEntityCode::GermanyDeleted),
            82 => Some(DxccEntityCode::Jamaica),
            84 => Some(DxccEntityCode::Martinique),
            85 => Some(DxccEntityCode::BonaireCuracaoDeleted),
            86 => Some(DxccEntityCode::Nicaragua),
            88 => Some(DxccEntityCode::Panama),
            89 => Some(DxccEntityCode::TurksAndCaicosIsland),
            90 => Some(DxccEntityCode::TrinidadAndTobago),
            91 => Some(DxccEntityCode::Aruba),
            93 => Some(DxccEntityCode::GeyserReefDeleted),
            94 => Some(DxccEntityCode::AntiguaAndBarbuda),
            95 => Some(DxccEntityCode::Dominica),
            96 => Some(DxccEntityCode::Montserrat),
            97 => Some(DxccEntityCode::StLucia),
            98 => Some(DxccEntityCode::StVincent),
            99 => Some(DxccEntityCode::GloriosoIsland),
            100 => Some(DxccEntityCode::Argentina),
            101 => Some(DxccEntityCode::GoaDeleted),
            102 => Some(DxccEntityCode::GoldCoastTogolandDeleted),
            103 => Some(DxccEntityCode::Guam),
            104 => Some(DxccEntityCode::Bolivia),
            105 => Some(DxccEntityCode::GuantanamoBay),
            106 => Some(DxccEntityCode::Guernsey),
            107 => Some(DxccEntityCode::Guinea),
            108 => Some(DxccEntityCode::Brazil),
            109 => Some(DxccEntityCode::GuineaBissau),
            110 => Some(DxccEntityCode::Hawaii),
            111 => Some(DxccEntityCode::HeardIsland),
            112 => Some(DxccEntityCode::Chile),
            113 => Some(DxccEntityCode::IfniDeleted),
            114 => Some(DxccEntityCode::IsleOfMan),
            115 => Some(DxccEntityCode::ItalianSomalilandDeleted),
            116 => Some(DxccEntityCode::Colombia),
            117 => Some(DxccEntityCode::ItuHq),
            118 => Some(DxccEntityCode::JanMayen),
            119 => Some(DxccEntityCode::JavaDeleted),
            120 => Some(DxccEntityCode::Ecuador),
            122 => Some(DxccEntityCode::Jersey),
            123 => Some(DxccEntityCode::JohnstonIsland),
            124 => Some(DxccEntityCode::JuanDeNovaEuropa),
            125 => Some(DxccEntityCode::JuanFernandezIsland),
            126 => Some(DxccEntityCode::Kaliningrad),
            127 => Some(DxccEntityCode::KamaranIslandDeleted),
            128 => Some(DxccEntityCode::KareloFinnishRepublicDeleted),
            129 => Some(DxccEntityCode::Guyana),
            130 => Some(DxccEntityCode::Kazakhstan),
            131 => Some(DxccEntityCode::KerguelenIsland),
            132 => Some(DxccEntityCode::Paraguay),
            133 => Some(DxccEntityCode::KermadecIsland),
            134 => Some(DxccEntityCode::KingmanReefDeleted),
            135 => Some(DxccEntityCode::Kyrgyzstan),
            136 => Some(DxccEntityCode::Peru),
            137 => Some(DxccEntityCode::RepublicOfKorea),
            138 => Some(DxccEntityCode::KureIsland),
            139 => Some(DxccEntityCode::KuriaMuriaIslandDeleted),
            140 => Some(DxccEntityCode::Suriname),
            141 => Some(DxccEntityCode::FalklandIsland),
            142 => Some(DxccEntityCode::LakshadweepIsland),
            143 => Some(DxccEntityCode::Laos),
            144 => Some(DxccEntityCode::Uruguay),
            145 => Some(DxccEntityCode::Latvia),
            146 => Some(DxccEntityCode::Lithuania),
            147 => Some(DxccEntityCode::LordHoweIsland),
            148 => Some(DxccEntityCode::Venezuela),
            149 => Some(DxccEntityCode::Azores),
            150 => Some(DxccEntityCode::Australia),
            151 => Some(DxccEntityCode::MalyjVysotskijIslandDeleted),
            152 => Some(DxccEntityCode::Macao),
            153 => Some(DxccEntityCode::MacquarieIsland),
            154 => Some(DxccEntityCode::YemenArabRepublicDeleted),
            155 => Some(DxccEntityCode::MalayaDeleted),
            157 => Some(DxccEntityCode::Nauru),
            158 => Some(DxccEntityCode::Vanuatu),
            159 => Some(DxccEntityCode::Maldives),
            160 => Some(DxccEntityCode::Tonga),
            161 => Some(DxccEntityCode::MalpeloIsland),
            162 => Some(DxccEntityCode::NewCaledonia),
            163 => Some(DxccEntityCode::PapuaNewGuinea),
            164 => Some(DxccEntityCode::ManchuriaDeleted),
            165 => Some(DxccEntityCode::Mauritius),
            166 => Some(DxccEntityCode::MarianaIsland),
            167 => Some(DxccEntityCode::MarketReef),
            168 => Some(DxccEntityCode::MarshallIsland),
            169 => Some(DxccEntityCode::Mayotte),
            170 => Some(DxccEntityCode::NewZealand),
            171 => Some(DxccEntityCode::MellishReef),
            172 => Some(DxccEntityCode::PitcairnIsland),
            173 => Some(DxccEntityCode::Micronesia),
            174 => Some(DxccEntityCode::MidwayIsland),
            175 => Some(DxccEntityCode::FrenchPolynesia),
            176 => Some(DxccEntityCode::Fiji),
            177 => Some(DxccEntityCode::MinamiTorishima),
            178 => Some(DxccEntityCode::MinervaReefDeleted),
            179 => Some(DxccEntityCode::Moldova),
            180 => Some(DxccEntityCode::MountAthos),
            181 => Some(DxccEntityCode::Mozambique),
            182 => Some(DxccEntityCode::NavassaIsland),
            183 => Some(DxccEntityCode::NetherlandsBorneoDeleted),
            184 => Some(DxccEntityCode::NetherlandsNewGuineaDeleted),
            185 => Some(DxccEntityCode::SolomonIsland),
            186 => Some(DxccEntityCode::NewfoundlandLabradorDeleted),
            187 => Some(DxccEntityCode::Niger),
            188 => Some(DxccEntityCode::Niue),
            189 => Some(DxccEntityCode::NorfolkIsland),
            190 => Some(DxccEntityCode::Samoa),
            191 => Some(DxccEntityCode::NorthCookIsland),
            192 => Some(DxccEntityCode::Ogasawara),
            193 => Some(DxccEntityCode::OkinawaRyukyuIslandDeleted),
            194 => Some(DxccEntityCode::OkinoToriShimaDeleted),
            195 => Some(DxccEntityCode::AnnobonIsland),
            196 => Some(DxccEntityCode::PalestineDeleted),
            197 => Some(DxccEntityCode::PalmyraAndJarvisIsland),
            198 => Some(DxccEntityCode::PapuaTerritoryDeleted),
            199 => Some(DxccEntityCode::PeterIsland),
            200 => Some(DxccEntityCode::PortugueseTimorDeleted),
            201 => Some(DxccEntityCode::PrinceEdwardAndMarionIsland),
            202 => Some(DxccEntityCode::PuertoRico),
            203 => Some(DxccEntityCode::Andorra),
            204 => Some(DxccEntityCode::Revillagigedo),
            205 => Some(DxccEntityCode::AscensionIsland),
            206 => Some(DxccEntityCode::Austria),
            207 => Some(DxccEntityCode::RodriguezIsland),
            208 => Some(DxccEntityCode::RuandaUrundiDeleted),
            209 => Some(DxccEntityCode::Belgium),
            210 => Some(DxccEntityCode::SaarDeleted),
            211 => Some(DxccEntityCode::SableIsland),
            212 => Some(DxccEntityCode::Bulgaria),
            213 => Some(DxccEntityCode::SaintMartin),
            214 => Some(DxccEntityCode::Corsica),
            215 => Some(DxccEntityCode::Cyprus),
            216 => Some(DxccEntityCode::SanAndresAndProvidencia),
            217 => Some(DxccEntityCode::SanFelixAndSanAmbrosio),
            218 => Some(DxccEntityCode::CzechoslovakiaDeleted),
            219 => Some(DxccEntityCode::SaoTomeAndPrincipe),
            220 => Some(DxccEntityCode::SarawakDeleted),
            221 => Some(DxccEntityCode::Denmark),
            222 => Some(DxccEntityCode::FaroeIsland),
            223 => Some(DxccEntityCode::England),
            224 => Some(DxccEntityCode::Finland),
            225 => Some(DxccEntityCode::Sardinia),
            226 => Some(DxccEntityCode::SaudiArabiaIraqNeutralZoneDeleted),
            227 => Some(DxccEntityCode::France),
            228 => Some(DxccEntityCode::SerranaBankAndRoncadorCayDeleted),
            229 => Some(DxccEntityCode::GermanDemocraticRepublicDeleted),
            230 => Some(DxccEntityCode::FederalRepublicOfGermany),
            231 => Some(DxccEntityCode::SikkimDeleted),
            232 => Some(DxccEntityCode::Somalia),
            233 => Some(DxccEntityCode::Gibraltar),
            234 => Some(DxccEntityCode::SouthCookIsland),
            235 => Some(DxccEntityCode::SouthGeorgiaIsland),
            236 => Some(DxccEntityCode::Greece),
            237 => Some(DxccEntityCode::Greenland),
            238 => Some(DxccEntityCode::SouthOrkneyIsland),
            239 => Some(DxccEntityCode::Hungary),
            240 => Some(DxccEntityCode::SouthSandwichIsland),
            241 => Some(DxccEntityCode::SouthShetlandIsland),
            242 => Some(DxccEntityCode::Iceland),
            243 => Some(DxccEntityCode::PeopleSDemocraticRepOfYemenDeleted),
            244 => Some(DxccEntityCode::SouthernSudanDeleted),
            245 => Some(DxccEntityCode::Ireland),
            246 => Some(DxccEntityCode::SovereignMilitaryOrderOfMalta),
            247 => Some(DxccEntityCode::SpratlyIsland),
            248 => Some(DxccEntityCode::Italy),
            249 => Some(DxccEntityCode::StKittsAndNevis),
            250 => Some(DxccEntityCode::StHelena),
            251 => Some(DxccEntityCode::Liechtenstein),
            252 => Some(DxccEntityCode::StPaulIsland),
            253 => Some(DxccEntityCode::StPeterAndStPaulRocks),
            254 => Some(DxccEntityCode::Luxembourg),
            255 => Some(DxccEntityCode::StMaartenSabaStEustatiusDeleted),
            256 => Some(DxccEntityCode::MadeiraIsland),
            257 => Some(DxccEntityCode::Malta),
            258 => Some(DxccEntityCode::SumatraDeleted),
            259 => Some(DxccEntityCode::Svalbard),
            260 => Some(DxccEntityCode::Monaco),
            261 => Some(DxccEntityCode::SwanIslandDeleted),
            262 => Some(DxccEntityCode::Tajikistan),
            263 => Some(DxccEntityCode::Netherlands),
            264 => Some(DxccEntityCode::TangierDeleted),
            265 => Some(DxccEntityCode::NorthernIreland),
            266 => Some(DxccEntityCode::Norway),
            267 => Some(DxccEntityCode::TerritoryOfNewGuineaDeleted),
            268 => Some(DxccEntityCode::TibetDeleted),
            269 => Some(DxccEntityCode::Poland),
            270 => Some(DxccEntityCode::TokelauIsland),
            271 => Some(DxccEntityCode::TriesteDeleted),
            272 => Some(DxccEntityCode::Portugal),
            273 => Some(DxccEntityCode::TrindadeAndMartimVazIsland),
            274 => Some(DxccEntityCode::TristanDaCunhaAndGoughIsland),
            275 => Some(DxccEntityCode::Romania),
            276 => Some(DxccEntityCode::TromelinIsland),
            277 => Some(DxccEntityCode::StPierreAndMiquelon),
            278 => Some(DxccEntityCode::SanMarino),
            279 => Some(DxccEntityCode::Scotland),
            280 => Some(DxccEntityCode::Turkmenistan),
            281 => Some(DxccEntityCode::Spain),
            282 => Some(DxccEntityCode::Tuvalu),
            283 => Some(DxccEntityCode::UkSovereignBaseAreasOnCyprus),
            284 => Some(DxccEntityCode::Sweden),
            285 => Some(DxccEntityCode::VirginIsland),
            286 => Some(DxccEntityCode::Uganda),
            287 => Some(DxccEntityCode::Switzerland),
            288 => Some(DxccEntityCode::Ukraine),
            289 => Some(DxccEntityCode::UnitedNationsHq),
            291 => Some(DxccEntityCode::UnitedStatesOfAmerica),
            292 => Some(DxccEntityCode::Uzbekistan),
            293 => Some(DxccEntityCode::VietNam),
            294 => Some(DxccEntityCode::Wales),
            295 => Some(DxccEntityCode::Vatican),
            296 => Some(DxccEntityCode::Serbia),
            297 => Some(DxccEntityCode::WakeIsland),
            298 => Some(DxccEntityCode::WallisAndFutunaIsland),
            299 => Some(DxccEntityCode::WestMalaysia),
            301 => Some(DxccEntityCode::WKiribatiGilbertIsland),
            302 => Some(DxccEntityCode::WesternSahara),
            303 => Some(DxccEntityCode::WillisIsland),
            304 => Some(DxccEntityCode::Bahrain),
            305 => Some(DxccEntityCode::Bangladesh),
            306 => Some(DxccEntityCode::Bhutan),
            307 => Some(DxccEntityCode::ZanzibarDeleted),
            308 => Some(DxccEntityCode::CostaRica),
            309 => Some(DxccEntityCode::Myanmar),
            312 => Some(DxccEntityCode::Cambodia),
            315 => Some(DxccEntityCode::SriLanka),
            318 => Some(DxccEntityCode::China),
            321 => Some(DxccEntityCode::HongKong),
            324 => Some(DxccEntityCode::India),
            327 => Some(DxccEntityCode::Indonesia),
            330 => Some(DxccEntityCode::Iran),
            333 => Some(DxccEntityCode::Iraq),
            336 => Some(DxccEntityCode::Israel),
            339 => Some(DxccEntityCode::Japan),
            342 => Some(DxccEntityCode::Jordan),
            344 => Some(DxccEntityCode::DemocraticPeopleSRepOfKorea),
            345 => Some(DxccEntityCode::BruneiDarussalam),
            348 => Some(DxccEntityCode::Kuwait),
            354 => Some(DxccEntityCode::Lebanon),
            363 => Some(DxccEntityCode::Mongolia),
            369 => Some(DxccEntityCode::Nepal),
            370 => Some(DxccEntityCode::Oman),
            372 => Some(DxccEntityCode::Pakistan),
            375 => Some(DxccEntityCode::Philippines),
            376 => Some(DxccEntityCode::Qatar),
            378 => Some(DxccEntityCode::SaudiArabia),
            379 => Some(DxccEntityCode::Seychelles),
            381 => Some(DxccEntityCode::Singapore),
            382 => Some(DxccEntityCode::Djibouti),
            384 => Some(DxccEntityCode::Syria),
            386 => Some(DxccEntityCode::Taiwan),
            387 => Some(DxccEntityCode::Thailand),
            390 => Some(DxccEntityCode::Turkey),
            391 => Some(DxccEntityCode::UnitedArabEmirates),
            400 => Some(DxccEntityCode::Algeria),
            401 => Some(DxccEntityCode::Angola),
            402 => Some(DxccEntityCode::Botswana),
            404 => Some(DxccEntityCode::Burundi),
            406 => Some(DxccEntityCode::Cameroon),
            408 => Some(DxccEntityCode::CentralAfrica),
            409 => Some(DxccEntityCode::CapeVerde),
            410 => Some(DxccEntityCode::Chad),
            411 => Some(DxccEntityCode::Comoros),
            412 => Some(DxccEntityCode::RepublicOfTheCongo),
            414 => Some(DxccEntityCode::DemocraticRepublicOfTheCongo),
            416 => Some(DxccEntityCode::Benin),
            420 => Some(DxccEntityCode::Gabon),
            422 => Some(DxccEntityCode::TheGambia),
            424 => Some(DxccEntityCode::Ghana),
            428 => Some(DxccEntityCode::CoteDIvoire),
            430 => Some(DxccEntityCode::Kenya),
            432 => Some(DxccEntityCode::Lesotho),
            434 => Some(DxccEntityCode::Liberia),
            436 => Some(DxccEntityCode::Libya),
            438 => Some(DxccEntityCode::Madagascar),
            440 => Some(DxccEntityCode::Malawi),
            442 => Some(DxccEntityCode::Mali),
            444 => Some(DxccEntityCode::Mauritania),
            446 => Some(DxccEntityCode::Morocco),
            450 => Some(DxccEntityCode::Nigeria),
            452 => Some(DxccEntityCode::Zimbabwe),
            453 => Some(DxccEntityCode::ReunionIsland),
            454 => Some(DxccEntityCode::Rwanda),
            456 => Some(DxccEntityCode::Senegal),
            458 => Some(DxccEntityCode::SierraLeone),
            460 => Some(DxccEntityCode::RotumaIsland),
            462 => Some(DxccEntityCode::SouthAfrica),
            464 => Some(DxccEntityCode::Namibia),
            466 => Some(DxccEntityCode::Sudan),
            468 => Some(DxccEntityCode::Swaziland),
            470 => Some(DxccEntityCode::Tanzania),
            474 => Some(DxccEntityCode::Tunisia),
            478 => Some(DxccEntityCode::Egypt),
            480 => Some(DxccEntityCode::BurkinaFaso),
            482 => Some(DxccEntityCode::Zambia),
            483 => Some(DxccEntityCode::Togo),
            488 => Some(DxccEntityCode::WalvisBayDeleted),
            489 => Some(DxccEntityCode::ConwayReef),
            490 => Some(DxccEntityCode::BanabaIslandOceanIsland),
            492 => Some(DxccEntityCode::Yemen),
            493 => Some(DxccEntityCode::PenguinIslandDeleted),
            497 => Some(DxccEntityCode::Croatia),
            499 => Some(DxccEntityCode::Slovenia),
            501 => Some(DxccEntityCode::BosniaHerzegovina),
            502 => Some(DxccEntityCode::Macedonia),
            503 => Some(DxccEntityCode::CzechRepublic),
            504 => Some(DxccEntityCode::SlovakRepublic),
            505 => Some(DxccEntityCode::PratasIsland),
            506 => Some(DxccEntityCode::ScarboroughReef),
            507 => Some(DxccEntityCode::TemotuProvince),
            508 => Some(DxccEntityCode::AustralIsland),
            509 => Some(DxccEntityCode::MarquesasIsland),
            510 => Some(DxccEntityCode::Palestine),
            511 => Some(DxccEntityCode::TimorLeste),
            512 => Some(DxccEntityCode::ChesterfieldIsland),
            513 => Some(DxccEntityCode::DucieIsland),
            514 => Some(DxccEntityCode::Montenegro),
            515 => Some(DxccEntityCode::SwainsIsland),
            516 => Some(DxccEntityCode::SaintBarthelemy),
            517 => Some(DxccEntityCode::Curacao),
            518 => Some(DxccEntityCode::StMaarten),
            519 => Some(DxccEntityCode::SabaAndStEustatius),
            520 => Some(DxccEntityCode::Bonaire),
            521 => Some(DxccEntityCode::SouthSudanRepublicOf),
            522 => Some(DxccEntityCode::RepublicOfKosovo),
            _ => None,
        }
    }

    pub proof fn lemma_code(self)
        ensures
            DxccEntityCode::spec_from_code(self.spec_code()) == Some(self),
            self.spec_code() <= 999,
    {
    }

    pub fn serialize(&self) -> (r: String)
        ensures
            r@ == self.spec_token(),
    {
        token_string(self)
    }

    pub fn deserialize(value: &str) -> (r: Result<DxccEntityCode, AdifError>)
        ensures
            match r {
                Ok(v) => DxccEntityCode::spec_from_token(value@) == Some(v),
                Err(e) => DxccEntityCode::spec_from_token(value@) is None && e.kind
                    == ErrorKind::UnknownEnumerationToken,
            },
    {
        parse_token(value)
    }
}

impl Vocabulary for DxccEntityCode {
    open spec fn spec_token(self) -> Seq<char> {
        decimal(self.spec_code())
    }

    closed spec fn spec_from_token(s: Seq<char>) -> Option<DxccEntityCode> {
        if canonical_digits(s) && digits_value(s) <= 999 {
            match DxccEntityCode::spec_from_code(digits_value(s)) {
                Some(v) => if v.spec_code() == digits_value(s) {
                    Some(v)
                } else {
                    None
                },
                None => None,
            }
        } else {
            None
        }
    }

    fn push_token(&self, out: &mut Vec<char>) {
        push_decimal(out, self.code());
    }

    fn from_token(s: &[char]) -> (r: Option<DxccEntityCode>) {
        if s.len() == 0 || (s.len() > 1 && s[0] == '0') {
            return None;
        }
        match parse_decimal(s, 0, s.len(), 999) {
            Some(n) => {
                assert(s@.subrange(0, s@.len() as int) =~= s@);
                match DxccEntityCode::from_code(n) {
                    Some(v) => if v.code() == n {
                        Some(v)
                    } else {
                        None
                    },
                    None => None,
                }
            },
            None => {
                assert(s@.subrange(0, s@.len() as int) =~= s@);
                None
            },
        }
    }

    proof fn lemma_from_token(s: Seq<char>) {
        if DxccEntityCode::spec_from_token(s) is Some {
            lemma_canonical_decimal(s);
        }
    }

    proof fn lemma_token(self) {
        self.lemma_code();
        lemma_decimal(self.spec_code());
        let t = decimal(self.spec_code());
        assert(token_chars(t));
        assert(canonical_digits(t)) by {
            if t.len() > 1 {
                assert(self.spec_code() >= 10);
                assert(t[0] != '0') by {
                    lemma_canonical_first(self.spec_code());
                }
            }
        }
    }
}

/// The decimal form of a number of two digits or more does not start with zero.
proof fn lemma_canonical_first(n: nat)
    requires
        n >= 10,
    ensures
        decimal(n)[0] != '0',
    decreases n,
{
    lemma_decimal(n / 10);
    if n / 10 >= 10 {
        lemma_canonical_first(n / 10);
    } else {
        assert(decimal(n / 10)[0] == crate::text::digit_char(n / 10));
    }
    assert(decimal(n)[0] == decimal(n / 10)[0]);
}

} // verus!
