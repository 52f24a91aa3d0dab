//! The regions towards which a search can be biased.

use vstd::prelude::*;
use crate::tag::Tagged;

verus! {

/// A region bias, sent as a country code top-level domain.
#[derive(Clone, Copy, Debug, PartialEq, Eq, Hash, Structural)]
pub enum Region {
    /// Ascension Island, `.ac`.
    AscensionIsland,
    /// Andorra, `.ad`.
    Andorra,
    /// United Arab Emirates, `.ae`.
    UnitedArabEmirates,
    /// Afghanistan, `.af`.
    Afghanistan,
    /// Antigua And Barbuda, `.ag`.
    AntiguaAndBarbuda,
    /// Anguilla, `.ai`.
    Anguilla,
    /// Albania, `.al`.
    Albania,
    /// Armenia, `.am`.
    Armenia,
    /// Antilles Netherlands, `.an`.
    AntillesNetherlands,
    /// Angola, `.ao`.
    Angola,
    /// Antarctica, `.aq`.
    Antarctica,
    /// Argentina, `.ar`.
    Argentina,
    /// American Samoa, `.as`.
    AmericanSamoa,
    /// Austria, `.at`.
    Austria,
    /// Australia, `.au`.
    Australia,
    /// Aruba, `.aw`.
    Aruba,
    /// Aland Islands, `.ax`.
    AlandIslands,
    /// Azerbaijan, `.az`.
    Azerbaijan,
    /// Bosnia And Herzegovina, `.ba`.
    BosniaAndHerzegovina,
    /// Barbados, `.bb`.
    Barbados,
    /// Bangladesh, `.bd`.
    Bangladesh,
    /// Belgium, `.be`.
    Belgium,
    /// Burkina Faso, `.bf`.
    BurkinaFaso,
    /// Bulgaria, `.bg`.
    Bulgaria,
    /// Bahrain, `.bh`.
    Bahrain,
    /// Burundi, `.bi`.
    Burundi,
    /// Benin, `.bj`.
    Benin,
    /// Saint Barthelemy, `.bl`.
    SaintBarthelemy,
    /// Bermuda, `.bm`.
    Bermuda,
    /// Brunei Darussalam, `.bn`.
    BruneiDarussalam,
    /// Bolivia, `.bo`.
    Bolivia,
    /// Bonaire Sint Eustatius And Saba, `.bq`.
    BonaireSintEustatiusAndSaba,
    /// Brazil, `.br`.
    Brazil,
    /// Bahamas, `.bs`.
    Bahamas,
    /// Bhutan, `.bt`.
    Bhutan,
    /// Bouvet Island, `.bv`.
    BouvetIsland,
    /// Botswana, `.bw`.
    Botswana,
    /// Belarus, `.by`.
    Belarus,
    /// Belize, `.bz`.
    Belize,
    /// Canada, `.ca`.
    Canada,
    /// Cocos Islands, `.cc`.
    CocosIslands,
    /// Democratic Republic Of The Congo, `.cd`.
    DemocraticRepublicOfTheCongo,
    /// Central African Republic, `.cf`.
    CentralAfricanRepublic,
    /// Republic Of Congo, `.cg`.
    RepublicOfCongo,
    /// Switzerland, `.ch`.
    Switzerland,
    /// Cote Divoire, `.ci`.
    CoteDivoire,
    /// Cook Islands, `.ck`.
    CookIslands,
    /// Chile, `.cl`.
    Chile,
    /// Cameroon, `.cm`.
    Cameroon,
    /// China, `.cn`.
    China,
    /// Colombia, `.co`.
    Colombia,
    /// Costa Rica, `.cr`.
    CostaRica,
    /// Cuba, `.cu`.
    Cuba,
    /// Cape Verde, `.cv`.
    CapeVerde,
    /// Curacao, `.cw`.
    Curacao,
    /// Christmas Island, `.cx`.
    ChristmasIsland,
    /// Cyprus, `.cy`.
    Cyprus,
    /// Czech Republic, `.cz`.
    CzechRepublic,
    /// Germany, `.de`.
    Germany,
    /// Djibouti, `.dj`.
    Djibouti,
    /// Denmark, `.dk`.
    Denmark,
    /// Dominica, `.dm`.
    Dominica,
    /// Dominican Republic, `.do`.
    DominicanRepublic,
    /// Algeria, `.dz`.
    Algeria,
    /// Ecuador, `.ec`.
    Ecuador,
    /// Estonia, `.ee`.
    Estonia,
    /// Egypt, `.eg`.
    Egypt,
    /// Western Sahara, `.eh`.
    WesternSahara,
    /// Eritrea, `.er`.
    Eritrea,
    /// Spain, `.es`.
    Spain,
    /// Ethiopia, `.et`.
    Ethiopia,
    /// European Union, `.eu`.
    EuropeanUnion,
    /// Finland, `.fi`.
    Finland,
    /// Fiji, `.fj`.
    Fiji,
    /// Falkland Islands, `.fk`.
    FalklandIslands,
    /// Federated States Of Micronesia, `.fm`.
    FederatedStatesOfMicronesia,
    /// Faroe Islands, `.fo`.
    FaroeIslands,
    /// France, `.fr`.
    France,
    /// Gabon, `.ga`.
    Gabon,
    /// Grenada, `.gd`.
    Grenada,
    /// Georgia, `.ge`.
    Georgia,
    /// French Guiana, `.gf`.
    FrenchGuiana,
    /// Guernsey, `.gg`.
    Guernsey,
    /// Ghana, `.gh`.
    Ghana,
    /// Gibraltar, `.gi`.
    Gibraltar,
    /// Greenland, `.gl`.
    Greenland,
    /// Gambia, `.gm`.
    Gambia,
    /// Guinea, `.gn`.
    Guinea,
    /// Guadeloupe, `.gp`.
    Guadeloupe,
    /// Equatorial Guinea, `.gq`.
    EquatorialGuinea,
    /// Greece, `.gr`.
    Greece,
    /// South Georgia And The South Sandwich Islands, `.gs`.
    SouthGeorgiaAndTheSouthSandwichIslands,
    /// Guatemala, `.gt`.
    Guatemala,
    /// Guam, `.gu`.
    Guam,
    /// Guinea Bissau, `.gw`.
    GuineaBissau,
    /// Guyana, `.gy`.
    Guyana,
    /// Hong Kong, `.hk`.
    HongKong,
    /// Heard Island And Mc Donald Islands, `.hm`.
    HeardIslandAndMcDonaldIslands,
    /// Honduras, `.hn`.
    Honduras,
    /// Croatia, `.hr`.
    Croatia,
    /// Haiti, `.ht`.
    Haiti,
    /// Hungary, `.hu`.
    Hungary,
    /// Indonesia, `.id`.
    Indonesia,
    /// Ireland, `.ie`.
    Ireland,
    /// Israel, `.il`.
    Israel,
    /// Isle Of Man, `.im`.
    IsleOfMan,
    /// India, `.in`.
    India,
    /// British Indian Ocean Territory, `.io`.
    BritishIndianOceanTerritory,
    /// Iraq, `.iq`.
    Iraq,
    /// Islamic Republic Of Iran, `.ir`.
    IslamicRepublicOfIran,
    /// Iceland, `.is`.
    Iceland,
    /// Italy, `.it`.
    Italy,
    /// Jersey, `.je`.
    Jersey,
    /// Jamaica, `.jm`.
    Jamaica,
    /// Jordan, `.jo`.
    Jordan,
    /// Japan, `.jp`.
    Japan,
    /// Kenya, `.ke`.
    Kenya,
    /// Kyrgyzstan, `.kg`.
    Kyrgyzstan,
    /// Cambodia, `.kh`.
    Cambodia,
    /// Kiribati, `.ki`.
    Kiribati,
    /// Comoros, `.km`.
    Comoros,
    /// Saint Kitts And Nevis, `.kn`.
    SaintKittsAndNevis,
    /// Democratic Peoples Republic Of Korea, `.kp`.
    DemocraticPeoplesRepublicOfKorea,
    /// Republic Of Korea, `.kp`.
    RepublicOfKorea,
    /// Kuwait, `.kw`.
    Kuwait,
    /// Caymen Islands, `.ky`.
    CaymenIslands,
    /// Kazakhstan, `.kz`.
    Kazakhstan,
    /// Laos, `.la`.
    Laos,
    /// Lebanon, `.lb`.
    Lebanon,
    /// Saint Lucia, `.lc`.
    SaintLucia,
    /// Liechtenstein, `.li`.
    Liechtenstein,
    /// Sri Lanka, `.lk`.
    SriLanka,
    /// Liberia, `.lr`.
    Liberia,
    /// Lesotho, `.ls`.
    Lesotho,
    /// Lithuania, `.lt`.
    Lithuania,
    /// Luxembourg, `.lu`.
    Luxembourg,
    /// Latvia, `.lv`.
    Latvia,
    /// Libya, `.ly`.
    Libya,
    /// Morocco, `.ma`.
    Morocco,
    /// Monaco, `.mc`.
    Monaco,
    /// Republic Of Moldova, `.md`.
    RepublicOfMoldova,
    /// Montenegro, `.me`.
    Montenegro,
    /// Saint Martin, `.mf`.
    SaintMartin,
    /// Madagascar, `.mg`.
    Madagascar,
    /// Marshall Islands, `.mh`.
    MarshallIslands,
    /// Macedonia, `.mk`.
    Macedonia,
    /// Mali, `.ml`.
    Mali,
    /// Myanmar, `.mm`.
    Myanmar,
    /// Mongolia, `.mn`.
    Mongolia,
    /// Macao, `.mo`.
    Macao,
    /// Northern Mariana Islands, `.mp`.
    NorthernMarianaIslands,
    /// Martinique, `.mq`.
    Martinique,
    /// Mauritania, `.mr`.
    Mauritania,
    /// Montserrat, `.ms`.
    Montserrat,
    /// Malta, `.mt`.
    Malta,
    /// Mauritius, `.mu`.
    Mauritius,
    /// Maldives, `.mv`.
    Maldives,
    /// Malawi, `.mw`.
    Malawi,
    /// Mexico, `.mx`.
    Mexico,
    /// Malaysia, `.my`.
    Malaysia,
    /// Mozambique, `.mz`.
    Mozambique,
    /// Namibia, `.na`.
    Namibia,
    /// New Caledonia, `.nc`.
    NewCaledonia,
    /// Niger, `.ne`.
    Niger,
    /// Norfolk Island, `.nf`.
    NorfolkIsland,
    /// Nigeria, `.ng`.
    Nigeria,
    /// Nicaragua, `.ni`.
    Nicaragua,
    /// Netherlands, `.nl`.
    Netherlands,
    /// Norway, `.no`.
    Norway,
    /// Nepal, `.np`.
    Nepal,
    /// Nauru, `.nr`.
    Nauru,
    /// Niue, `.nu`.
    Niue,
    /// New Zealand, `.nz`.
    NewZealand,
    /// Oman, `.om`.
    Oman,
    /// Panama, `.pa`.
    Panama,
    /// Peru, `.pe`.
    Peru,
    /// French Polynesia, `.pf`.
    FrenchPolynesia,
    /// Papua New Guinea, `.pg`.
    PapuaNewGuinea,
    /// Philippines, `.ph`.
    Philippines,
    /// Pakistan, `.pk`.
    Pakistan,
    /// Poland, `.pl`.
    Poland,
    /// Saint Pierre And Miquelon, `.pm`.
    SaintPierreAndMiquelon,
    /// Pitcairn, `.pn`.
    Pitcairn,
    /// Puerto Rico, `.pr`.
    PuertoRico,
    /// Palestine, `.ps`.
    Palestine,
    /// Portugal, `.pt`.
    Portugal,
    /// Palau, `.pw`.
    Palau,
    /// Paraguay, `.py`.
    Paraguay,
    /// Qatar, `.qa`.
    Qatar,
    /// Reunion, `.re`.
    Reunion,
    /// Romania, `.ro`.
    Romania,
    /// Serbia, `.rs`.
    Serbia,
    /// Russia, `.ru`.
    Russia,
    /// Rwanda, `.rw`.
    Rwanda,
    /// Saudi Arabia, `.sa`.
    SaudiArabia,
    /// Solomon Islands, `.sb`.
    SolomonIslands,
    /// Seychelles, `.sc`.
    Seychelles,
    /// Sudan, `.sd`.
    Sudan,
    /// Sweden, `.se`.
    Sweden,
    /// Singapore, `.sg`.
    Singapore,
    /// Saint Helena, `.sh`.
    SaintHelena,
    /// Slovenia, `.si`.
    Slovenia,
    /// Svalbard And Jan Mayen, `.sj`.
    SvalbardAndJanMayen,
    /// Slovakia, `.sk`.
    Slovakia,
    /// Sierra Leone, `.sl`.
    SierraLeone,
    /// San Marino, `.sm`.
    SanMarino,
    /// Senegal, `.sn`.
    Senegal,
    /// Somalia, `.so`.
    Somalia,
    /// Suriname, `.sr`.
    Suriname,
    /// South Sudan, `.ss`.
    SouthSudan,
    /// Sao Tome And Principe, `.st`.
    SaoTomeAndPrincipe,
    /// Soviet Union, `.su`.
    SovietUnion,
    /// El Salvador, `.sv`.
    ElSalvador,
    /// Sint Maarten, `.sx`.
    SintMaarten,
    /// Syria, `.sy`.
    Syria,
    /// Swaziland, `.sz`.
    Swaziland,
    /// Turks And Caicos Islands, `.tc`.
    TurksAndCaicosIslands,
    /// Chad, `.td`.
    Chad,
    /// French Southern Territories, `.tf`.
    FrenchSouthernTerritories,
    /// Togo, `.tg`.
    Togo,
    /// Thailand, `.th`.
    Thailand,
    /// Tajikistan, `.tj`.
    Tajikistan,
    /// Tokelau, `.tk`.
    Tokelau,
    /// Timor Leste, `.tl`.
    TimorLeste,
    /// Turkmenistan, `.tm`.
    Turkmenistan,
    /// Tunisia, `.tn`.
    Tunisia,
    /// Tonga, `.to`.
    Tonga,
    /// Portuguese Timor, `.tp`.
    PortugueseTimor,
    /// Turkey, `.tr`.
    Turkey,
    /// Trinidad And Tobago, `.tt`.
    TrinidadAndTobago,
    /// Tuvalu, `.tv`.
    Tuvalu,
    /// Taiwan, `.tw`.
    Taiwan,
    /// Tanzania, `.tz`.
    Tanzania,
    /// Ukraine, `.ua`.
    Ukraine,
    /// Uganda, `.ug`.
    Uganda,
    /// United Kingdom, `.uk`.
    UnitedKingdom,
    /// United States Minor Outlying Islands, `.um`.
    UnitedStatesMinorOutlyingIslands,
    /// United States, `.us`.
    UnitedStates,
    /// Uruguay, `.uy`.
    Uruguay,
    /// Uzbekistan, `.uz`.
    Uzbekistan,
    /// Vatican City, `.va`.
    VaticanCity,
    /// Saint Vincent And The Grenadines, `.vc`.
    SaintVincentAndTheGrenadines,
    /// Venezuela, `.ve`.
    Venezuela,
    /// British Virgin Islands, `.vg`.
    BritishVirginIslands,
    /// USVirgin Islands, `.vi`.
    USVirginIslands,
    /// Vietnam, `.vn`.
    Vietnam,
    /// Vanuatu, `.vu`.
    Vanuatu,
    /// Wallis And Futuna, `.wf`.
    WallisAndFutuna,
    /// Samoa, `.ws`.
    Samoa,
    /// Mayote, `.yt`.
    Mayote,
    /// South Africa, `.za`.
    SouthAfrica,
    /// Zambia, `.zm`.
    Zambia,
    /// Zimbabwe, `.zw`.
    Zimbabwe,
}

impl Tagged for Region {
    open spec fn label(&self) -> Seq<char> {
        match self {
            Region::AscensionIsland => ".ac"@,
            Region::Andorra => ".ad"@,
            Region::UnitedArabEmirates => ".ae"@,
            Region::Afghanistan => ".af"@,
            Region::AntiguaAndBarbuda => ".ag"@,
            Region::Anguilla => ".ai"@,
            Region::Albania => ".al"@,
            Region::Armenia => ".am"@,
            Region::AntillesNetherlands => ".an"@,
            Region::Angola => ".ao"@,
            Region::Antarctica => ".aq"@,
            Region::Argentina => ".ar"@,
            Region::AmericanSamoa => ".as"@,
            Region::Austria => ".at"@,
            Region::Australia => ".au"@,
            Region::Aruba => ".aw"@,
            Region::AlandIslands => ".ax"@,
            Region::Azerbaijan => ".az"@,
            Region::BosniaAndHerzegovina => ".ba"@,
            Region::Barbados => ".bb"@,
            Region::Bangladesh => ".bd"@,
            Region::Belgium => ".be"@,
            Region::BurkinaFaso => ".bf"@,
            Region::Bulgaria => ".bg"@,
            Region::Bahrain => ".bh"@,
            Region::Burundi => ".bi"@,
            Region::Benin => ".bj"@,
            Region::SaintBarthelemy => ".bl"@,
            Region::Bermuda => ".bm"@,
            Region::BruneiDarussalam => ".bn"@,
            Region::Bolivia => ".bo"@,
            Region::BonaireSintEustatiusAndSaba => ".bq"@,
            Region::Brazil => ".br"@,
            Region::Bahamas => ".bs"@,
            Region::Bhutan => ".bt"@,
            Region::BouvetIsland => ".bv"@,
            Region::Botswana => ".bw"@,
            Region::Belarus => ".by"@,
            Region::Belize => ".bz"@,
            Region::Canada => ".ca"@,
            Region::CocosIslands => ".cc"@,
            Region::DemocraticRepublicOfTheCongo => ".cd"@,
            Region::CentralAfricanRepublic => ".cf"@,
            Region::RepublicOfCongo => ".cg"@,
            Region::Switzerland => ".ch"@,
            Region::CoteDivoire => ".ci"@,
            Region::CookIslands => ".ck"@,
            Region::Chile => ".cl"@,
            Region::Cameroon => ".cm"@,
            Region::China => ".cn"@,
            Region::Colombia => ".co"@,
            Region::CostaRica => ".cr"@,
            Region::Cuba => ".cu"@,
            Region::CapeVerde => ".cv"@,
            Region::Curacao => ".cw"@,
            Region::ChristmasIsland => ".cx"@,
            Region::Cyprus => ".cy"@,
            Region::CzechRepublic => ".cz"@,
            Region::Germany => ".de"@,
            Region::Djibouti => ".dj"@,
            Region::Denmark => ".dk"@,
            Region::Dominica => ".dm"@,
            Region::DominicanRepublic => ".do"@,
            Region::Algeria => ".dz"@,
            Region::Ecuador => ".ec"@,
            Region::Estonia => ".ee"@,
            Region::Egypt => ".eg"@,
            Region::WesternSahara => ".eh"@,
            Region::Eritrea => ".er"@,
            Region::Spain => ".es"@,
            Region::Ethiopia => ".et"@,
            Region::EuropeanUnion => ".eu"@,
            Region::Finland => ".fi"@,
            Region::Fiji => ".fj"@,
            Region::FalklandIslands => ".fk"@,
            Region::FederatedStatesOfMicronesia => ".fm"@,
            Region::FaroeIslands => ".fo"@,
            Region::France => ".fr"@,
            Region::Gabon => ".ga"@,
            Region::Grenada => ".gd"@,
            Region::Georgia => ".ge"@,
            Region::FrenchGuiana => ".gf"@,
            Region::Guernsey => ".gg"@,
            Region::Ghana => ".gh"@,
            Region::Gibraltar => ".gi"@,
            Region::Greenland => ".gl"@,
            Region::Gambia => ".gm"@,
            Region::Guinea => ".gn"@,
            Region::Guadeloupe => ".gp"@,
            Region::EquatorialGuinea => ".gq"@,
            Region::Greece => ".gr"@,
            Region::SouthGeorgiaAndTheSouthSandwichIslands => ".gs"@,
            Region::Guatemala => ".gt"@,
            Region::Guam => ".gu"@,
            Region::GuineaBissau => ".gw"@,
            Region::Guyana => ".gy"@,
            Region::HongKong => ".hk"@,
            Region::HeardIslandAndMcDonaldIslands => ".hm"@,
            Region::Honduras => ".hn"@,
            Region::Croatia => ".hr"@,
            Region::Haiti => ".ht"@,
            Region::Hungary => ".hu"@,
            Region::Indonesia => ".id"@,
            Region::Ireland => ".ie"@,
            Region::Israel => ".il"@,
            Region::IsleOfMan => ".im"@,
            Region::India => ".in"@,
            Region::BritishIndianOceanTerritory => ".io"@,
            Region::Iraq => ".iq"@,
            Region::IslamicRepublicOfIran => ".ir"@,
            Region::Iceland => ".is"@,
            Region::Italy => ".it"@,
            Region::Jersey => ".je"@,
            Region::Jamaica => ".jm"@,
            Region::Jordan => ".jo"@,
            Region::Japan => ".jp"@,
            Region::Kenya => ".ke"@,
            Region::Kyrgyzstan => ".kg"@,
            Region::Cambodia => ".kh"@,
            Region::Kiribati => ".ki"@,
            Region::Comoros => ".km"@,
            Region::SaintKittsAndNevis => ".kn"@,
            Region::DemocraticPeoplesRepublicOfKorea => ".kp"@,
            Region::RepublicOfKorea => ".kp"@,
            Region::Kuwait => ".kw"@,
            Region::CaymenIslands => ".ky"@,
            Region::Kazakhstan => ".kz"@,
            Region::Laos => ".la"@,
            Region::Lebanon => ".lb"@,
            Region::SaintLucia => ".lc"@,
            Region::Liechtenstein => ".li"@,
            Region::SriLanka => ".lk"@,
            Region::Liberia => ".lr"@,
            Region::Lesotho => ".ls"@,
            Region::Lithuania => ".lt"@,
            Region::Luxembourg => ".lu"@,
            Region::Latvia => ".lv"@,
            Region::Libya => ".ly"@,
            Region::Morocco => ".ma"@,
            Region::Monaco => ".mc"@,
            Region::RepublicOfMoldova => ".md"@,
            Region::Montenegro => ".me"@,
            Region::SaintMartin => ".mf"@,
            Region::Madagascar => ".mg"@,
            Region::MarshallIslands => ".mh"@,
            Region::Macedonia => ".mk"@,
            Region::Mali => ".ml"@,
            Region::Myanmar => ".mm"@,
            Region::Mongolia => ".mn"@,
            Region::Macao => ".mo"@,
            Region::NorthernMarianaIslands => ".mp"@,
            Region::Martinique => ".mq"@,
            Region::Mauritania => ".mr"@,
            Region::Montserrat => ".ms"@,
            Region::Malta => ".mt"@,
            Region::Mauritius => ".mu"@,
            Region::Maldives => ".mv"@,
            Region::Malawi => ".mw"@,
            Region::Mexico => ".mx"@,
            Region::Malaysia => ".my"@,
            Region::Mozambique => ".mz"@,
            Region::Namibia => ".na"@,
            Region::NewCaledonia => ".nc"@,
            Region::Niger => ".ne"@,
            Region::NorfolkIsland => ".nf"@,
            Region::Nigeria => ".ng"@,
            Region::Nicaragua => ".ni"@,
            Region::Netherlands => ".nl"@,
            Region::Norway => ".no"@,
            Region::Nepal => ".np"@,
            Region::Nauru => ".nr"@,
            Region::Niue => ".nu"@,
            Region::NewZealand => ".nz"@,
            Region::Oman => ".om"@,
            Region::Panama => ".pa"@,
            Region::Peru => ".pe"@,
            Region::FrenchPolynesia => ".pf"@,
            Region::PapuaNewGuinea => ".pg"@,
            Region::Philippines => ".ph"@,
            Region::Pakistan => ".pk"@,
            Region::Poland => ".pl"@,
            Region::SaintPierreAndMiquelon => ".pm"@,
            Region::Pitcairn => ".pn"@,
            Region::PuertoRico => ".pr"@,
            Region::Palestine => ".ps"@,
            Region::Portugal => ".pt"@,
            Region::Palau => ".pw"@,
            Region::Paraguay => ".py"@,
            Region::Qatar => ".qa"@,
            Region::Reunion => ".re"@,
            Region::Romania => ".ro"@,
            Region::Serbia => ".rs"@,
            Region::Russia => ".ru"@,
            Region::Rwanda => ".rw"@,
            Region::SaudiArabia => ".sa"@,
            Region::SolomonIslands => ".sb"@,
            Region::Seychelles => ".sc"@,
            Region::Sudan => ".sd"@,
            Region::Sweden => ".se"@,
            Region::Singapore => ".sg"@,
            Region::SaintHelena => ".sh"@,
            Region::Slovenia => ".si"@,
            Region::SvalbardAndJanMayen => ".sj"@,
            Region::Slovakia => ".sk"@,
            Region::SierraLeone => ".sl"@,
            Region::SanMarino => ".sm"@,
            Region::Senegal => ".sn"@,
            Region::Somalia => ".so"@,
            Region::Suriname => ".sr"@,
            Region::SouthSudan => ".ss"@,
            Region::SaoTomeAndPrincipe => ".st"@,
            Region::SovietUnion => ".su"@,
            Region::ElSalvador => ".sv"@,
            Region::SintMaarten => ".sx"@,
            Region::Syria => ".sy"@,
            Region::Swaziland => ".sz"@,
            Region::TurksAndCaicosIslands => ".tc"@,
            Region::Chad => ".td"@,
            Region::FrenchSouthernTerritories => ".tf"@,
            Region::Togo => ".tg"@,
            Region::Thailand => ".th"@,
            Region::Tajikistan => ".tj"@,
            Region::Tokelau => ".tk"@,
            Region::TimorLeste => ".tl"@,
            Region::Turkmenistan => ".tm"@,
            Region::Tunisia => ".tn"@,
            Region::Tonga => ".to"@,
            Region::PortugueseTimor => ".tp"@,
            Region::Turkey => ".tr"@,
            Region::TrinidadAndTobago => ".tt"@,
            Region::Tuvalu => ".tv"@,
            Region::Taiwan => ".tw"@,
            Region::Tanzania => ".tz"@,
            Region::Ukraine => ".ua"@,
            Region::Uganda => ".ug"@,
            Region::UnitedKingdom => ".uk"@,
            Region::UnitedStatesMinorOutlyingIslands => ".um"@,
            Region::UnitedStates => ".us"@,
            Region::Uruguay => ".uy"@,
            Region::Uzbekistan => ".uz"@,
            Region::VaticanCity => ".va"@,
            Region::SaintVincentAndTheGrenadines => ".vc"@,
            Region::Venezuela => ".ve"@,
            Region::BritishVirginIslands => ".vg"@,
            Region::USVirginIslands => ".vi"@,
            Region::Vietnam => ".vn"@,
            Region::Vanuatu => ".vu"@,
            Region::WallisAndFutuna => ".wf"@,
            Region::Samoa => ".ws"@,
            Region::Mayote => ".yt"@,
            Region::SouthAfrica => ".za"@,
            Region::Zambia => ".zm"@,
            Region::Zimbabwe => ".zw"@,
        }
    }

    fn variant_name(&self) -> (name: &'static str) {
        match self {
            Region::AscensionIsland => ".ac",
            Region::Andorra => ".ad",
            Region::UnitedArabEmirates => ".ae",
            Region::Afghanistan => ".af",
            Region::AntiguaAndBarbuda => ".ag",
            Region::Anguilla => ".ai",
            Region::Albania => ".al",
            Region::Armenia => ".am",
            Region::AntillesNetherlands => ".an",
            Region::Angola => ".ao",
            Region::Antarctica => ".aq",
            Region::Argentina => ".ar",
            Region::AmericanSamoa => ".as",
            Region::Austria => ".at",
            Region::Australia => ".au",
            Region::Aruba => ".aw",
            Region::AlandIslands => ".ax",
            Region::Azerbaijan => ".az",
            Region::BosniaAndHerzegovina => ".ba",
            Region::Barbados => ".bb",
            Region::Bangladesh => ".bd",
            Region::Belgium => ".be",
            Region::BurkinaFaso => ".bf",
            Region::Bulgaria => ".bg",
            Region::Bahrain => ".bh",
            Region::Burundi => ".bi",
            Region::Benin => ".bj",
            Region::SaintBarthelemy => ".bl",
            Region::Bermuda => ".bm",
            Region::BruneiDarussalam => ".bn",
            Region::Bolivia => ".bo",
            Region::BonaireSintEustatiusAndSaba => ".bq",
            Region::Brazil => ".br",
            Region::Bahamas => ".bs",
            Region::Bhutan => ".bt",
            Region::BouvetIsland => ".bv",
            Region::Botswana => ".bw",
            Region::Belarus => ".by",
            Region::Belize => ".bz",
            Region::Canada => ".ca",
            Region::CocosIslands => ".cc",
            Region::DemocraticRepublicOfTheCongo => ".cd",
            Region::CentralAfricanRepublic => ".cf",
            Region::RepublicOfCongo => ".cg",
            Region::Switzerland => ".ch",
            Region::CoteDivoire => ".ci",
            Region::CookIslands => ".ck",
            Region::Chile => ".cl",
            Region::Cameroon => ".cm",
            Region::China => ".cn",
            Region::Colombia => ".co",
            Region::CostaRica => ".cr",
            Region::Cuba => ".cu",
            Region::CapeVerde => ".cv",
            Region::Curacao => ".cw",
            Region::ChristmasIsland => ".cx",
            Region::Cyprus => ".cy",
            Region::CzechRepublic => ".cz",
            Region::Germany => ".de",
            Region::Djibouti => ".dj",
            Region::Denmark => ".dk",
            Region::Dominica => ".dm",
            Region::DominicanRepublic => ".do",
            Region::Algeria => ".dz",
            Region::Ecuador => ".ec",
            Region::Estonia => ".ee",
            Region::Egypt => ".eg",
            Region::WesternSahara => ".eh",
            Region::Eritrea => ".er",
            Region::Spain => ".es",
            Region::Ethiopia => ".et",
            Region::EuropeanUnion => ".eu",
            Region::Finland => ".fi",
            Region::Fiji => ".fj",
            Region::FalklandIslands => ".fk",
            Region::FederatedStatesOfMicronesia => ".fm",
            Region::FaroeIslands => ".fo",
            Region::France => ".fr",
            Region::Gabon => ".ga",
            Region::Grenada => ".gd",
            Region::Georgia => ".ge",
            Region::FrenchGuiana => ".gf",
            Region::Guernsey => ".gg",
            Region::Ghana => ".gh",
            Region::Gibraltar => ".gi",
            Region::Greenland => ".gl",
            Region::Gambia => ".gm",
            Region::Guinea => ".gn",
            Region::Guadeloupe => ".gp",
            Region::EquatorialGuinea => ".gq",
            Region::Greece => ".gr",
            Region::SouthGeorgiaAndTheSouthSandwichIslands => ".gs",
            Region::Guatemala => ".gt",
            Region::Guam => ".gu",
            Region::GuineaBissau => ".gw",
            Region::Guyana => ".gy",
            Region::HongKong => ".hk",
            Region::HeardIslandAndMcDonaldIslands => ".hm",
            Region::Honduras => ".hn",
            Region::Croatia => ".hr",
            Region::Haiti => ".ht",
            Region::Hungary => ".hu",
            Region::Indonesia => ".id",
            Region::Ireland => ".ie",
            Region::Israel => ".il",
            Region::IsleOfMan => ".im",
            Region::India => ".in",
            Region::BritishIndianOceanTerritory => ".io",
            Region::Iraq => ".iq",
            Region::IslamicRepublicOfIran => ".ir",
            Region::Iceland => ".is",
            Region::Italy => ".it",
            Region::Jersey => ".je",
            Region::Jamaica => ".jm",
            Region::Jordan => ".jo",
            Region::Japan => ".jp",
            Region::Kenya => ".ke",
            Region::Kyrgyzstan => ".kg",
            Region::Cambodia => ".kh",
            Region::Kiribati => ".ki",
            Region::Comoros => ".km",
            Region::SaintKittsAndNevis => ".kn",
            Region::DemocraticPeoplesRepublicOfKorea => ".kp",
            Region::RepublicOfKorea => ".kp",
            Region::Kuwait => ".kw",
            Region::CaymenIslands => ".ky",
            Region::Kazakhstan => ".kz",
            Region::Laos => ".la",
            Region::Lebanon => ".lb",
            Region::SaintLucia => ".lc",
            Region::Liechtenstein => ".li",
            Region::SriLanka => ".lk",
            Region::Liberia => ".lr",
            Region::Lesotho => ".ls",
            Region::Lithuania => ".lt",
            Region::Luxembourg => ".lu",
            Region::Latvia => ".lv",
            Region::Libya => ".ly",
            Region::Morocco => ".ma",
            Region::Monaco => ".mc",
            Region::RepublicOfMoldova => ".md",
            Region::Montenegro => ".me",
            Region::SaintMartin => ".mf",
            Region::Madagascar => ".mg",
            Region::MarshallIslands => ".mh",
            Region::Macedonia => ".mk",
            Region::Mali => ".ml",
            Region::Myanmar => ".mm",
            Region::Mongolia => ".mn",
            Region::Macao => ".mo",
            Region::NorthernMarianaIslands => ".mp",
            Region::Martinique => ".mq",
            Region::Mauritania => ".mr",
            Region::Montserrat => ".ms",
            Region::Malta => ".mt",
            Region::Mauritius => ".mu",
            Region::Maldives => ".mv",
            Region::Malawi => ".mw",
            Region::Mexico => ".mx",
            Region::Malaysia => ".my",
            Region::Mozambique => ".mz",
            Region::Namibia => ".na",
            Region::NewCaledonia => ".nc",
            Region::Niger => ".ne",
            Region::NorfolkIsland => ".nf",
            Region::Nigeria => ".ng",
            Region::Nicaragua => ".ni",
            Region::Netherlands => ".nl",
            Region::Norway => ".no",
            Region::Nepal => ".np",
            Region::Nauru => ".nr",
            Region::Niue => ".nu",
            Region::NewZealand => ".nz",
            Region::Oman => ".om",
            Region::Panama => ".pa",
            Region::Peru => ".pe",
            Region::FrenchPolynesia => ".pf",
            Region::PapuaNewGuinea => ".pg",
            Region::Philippines => ".ph",
            Region::Pakistan => ".pk",
            Region::Poland => ".pl",
            Region::SaintPierreAndMiquelon => ".pm",
            Region::Pitcairn => ".pn",
            Region::PuertoRico => ".pr",
            Region::Palestine => ".ps",
            Region::Portugal => ".pt",
            Region::Palau => ".pw",
            Region::Paraguay => ".py",
            Region::Qatar => ".qa",
            Region::Reunion => ".re",
            Region::Romania => ".ro",
            Region::Serbia => ".rs",
            Region::Russia => ".ru",
            Region::Rwanda => ".rw",
            Region::SaudiArabia => ".sa",
            Region::SolomonIslands => ".sb",
            Region::Seychelles => ".sc",
            Region::Sudan => ".sd",
            Region::Sweden => ".se",
            Region::Singapore => ".sg",
            Region::SaintHelena => ".sh",
            Region::Slovenia => ".si",
            Region::SvalbardAndJanMayen => ".sj",
            Region::Slovakia => ".sk",
            Region::SierraLeone => ".sl",
            Region::SanMarino => ".sm",
            Region::Senegal => ".sn",
            Region::Somalia => ".so",
            Region::Suriname => ".sr",
            Region::SouthSudan => ".ss",
            Region::SaoTomeAndPrincipe => ".st",
            Region::SovietUnion => ".su",
            Region::ElSalvador => ".sv",
            Region::SintMaarten => ".sx",
            Region::Syria => ".sy",
            Region::Swaziland => ".sz",
            Region::TurksAndCaicosIslands => ".tc",
            Region::Chad => ".td",
            Region::FrenchSouthernTerritories => ".tf",
            Region::Togo => ".tg",
            Region::Thailand => ".th",
            Region::Tajikistan => ".tj",
            Region::Tokelau => ".tk",
            Region::TimorLeste => ".tl",
            Region::Turkmenistan => ".tm",
            Region::Tunisia => ".tn",
            Region::Tonga => ".to",
            Region::PortugueseTimor => ".tp",
            Region::Turkey => ".tr",
            Region::TrinidadAndTobago => ".tt",
            Region::Tuvalu => ".tv",
            Region::Taiwan => ".tw",
            Region::Tanzania => ".tz",
            Region::Ukraine => ".ua",
            Region::Uganda => ".ug",
            Region::UnitedKingdom => ".uk",
            Region::UnitedStatesMinorOutlyingIslands => ".um",
            Region::UnitedStates => ".us",
            Region::Uruguay => ".uy",
            Region::Uzbekistan => ".uz",
            Region::VaticanCity => ".va",
            Region::SaintVincentAndTheGrenadines => ".vc",
            Region::Venezuela => ".ve",
            Region::BritishVirginIslands => ".vg",
            Region::USVirginIslands => ".vi",
            Region::Vietnam => ".vn",
            Region::Vanuatu => ".vu",
            Region::WallisAndFutuna => ".wf",
            Region::Samoa => ".ws",
            Region::Mayote => ".yt",
            Region::SouthAfrica => ".za",
            Region::Zambia => ".zm",
            Region::Zimbabwe => ".zw",
        }
    }
}

} // verus!
