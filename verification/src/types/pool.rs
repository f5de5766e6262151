//! Requests and responses of the pool endpoints, and pool regions.

use vstd::prelude::*;
use vstd::std_specs::convert::FromSpecImpl;
use vstd::utf8::encode_utf8;

use crate::text::{text_bytes, text_equals};
use crate::primitives::{Account, Name, PeerId, PoolId, Seed};

verus! {

#[derive(Debug)]
pub struct CreatePoolInput {
    pub seed: Seed,
    pub pool_name: Name,
    pub peer_id: PeerId,
    pub region: String,
}

#[derive(Debug)]
pub struct CreatePoolOutput {
    pub owner: Option<Account>,
    pub pool_id: PoolId,
}

#[derive(Debug)]
pub struct LeavePoolInput {
    pub seed: Seed,
    pub pool_id: PoolId,
}

#[derive(Debug)]
pub struct LeavePoolOutput {
    pub pool_id: PoolId,
    pub account: Account,
}

#[derive(Debug)]
pub struct JoinPoolInput {
    pub seed: Seed,
    pub pool_id: PoolId,
    pub peer_id: PeerId,
}

#[derive(Debug)]
pub struct JoinPoolOutput {
    pub pool_id: PoolId,
    pub account: Account,
}

#[derive(Debug)]
pub struct CancelJoinPoolInput {
    pub seed: Seed,
    pub pool_id: PoolId,
}

#[derive(Debug)]
pub struct CancelJoinPoolOutput {
    pub pool_id: PoolId,
    pub account: Account,
}

#[derive(Debug)]
pub struct VoteInput {
    pub seed: Seed,
    pub pool_id: PoolId,
    pub account: Account,
    pub vote_value: bool,
    pub peer_id: PeerId,
}

#[derive(Debug)]
pub struct VoteOutput {
    pub pool_id: PoolId,
    pub account: Account,
    pub result: String,
}

#[derive(Debug)]
pub struct GetAllPoolInput {
    pub region: Option<String>,
}

#[derive(Debug)]
pub struct GetAllPoolsOutput {
    pub pools: Vec<PoolData>,
}

#[derive(Debug)]
pub struct PoolData {
    pub pool_id: PoolId,
    pub creator: Option<Account>,
    pub pool_name: Name,
    pub region: String,
    pub parent: Option<PoolId>,
    pub participants: Vec<Account>,
}

#[derive(Debug)]
pub struct GetAllPoolUsersInput {
    pub account: Option<Account>,
    pub pool_id: Option<PoolId>,
    pub request_pool_id: Option<PoolId>, // New field added for additional filter
}

#[derive(Debug)]
pub struct GetAllPoolUsersOutput {
    pub users: Vec<PoolUserData>,
}

#[derive(Debug)]
pub struct PoolUserData {
    pub account: Account,
    pub pool_id: Option<PoolId>,
    pub request_pool_id: Option<PoolId>,
    pub peer_id: PeerId,
}

#[derive(Debug)]
pub struct GetAllPoolRequestInput {
    pub pool_id: Option<PoolId>,
    pub account: Option<Account>,
}

#[derive(Debug)]
pub struct GetAllPoolRequestsOutput {
    pub poolrequests: Vec<PoolRequestData>,
}

#[derive(Debug)]
pub struct PoolRequestData {
    pub pool_id: PoolId,
    pub account: Account,
    pub voted: Vec<Account>,
    pub positive_votes: u16,
    pub peer_id: PeerId,
}

/// The region of a storage pool.
#[derive(Clone, Copy, Debug, PartialEq, Eq, Structural)]
pub enum Region {
    /// Africa (Cape Town) - Covering Cape Town, Durban, Pretoria.
    AfricaCapeTown,
    /// Asia Pacific (Hong Kong) - Covering Hong Kong, Macau.
    AsiaPacificHongKong,
    /// Asia Pacific (Hyderabad) - Covering Hyderabad, Bangalore, Chennai.
    AsiaPacificHyderabad,
    /// Asia Pacific (Jakarta) - Covering Jakarta, Surabaya, Bandung.
    AsiaPacificJakarta,
    /// Asia Pacific (Melbourne) - Covering Melbourne, Sydney, Brisbane.
    AsiaPacificMelbourne,
    /// Canada (Calgary) - Covering Calgary, Edmonton, Vancouver.
    CanadaCalgary,
    /// Europe (Zurich) - Covering Zurich, Geneva, Basel.
    EuropeZurich,
    /// Europe (Milan) - Covering Milan, Rome, Naples.
    EuropeMilan,
    /// Europe (Spain) - Covering Madrid, Barcelona, Valencia.
    EuropeSpain,
    /// Israel (Tel Aviv) - Covering Tel Aviv, Jerusalem, Haifa.
    IsraelTelAviv,
    /// Middle East (UAE) - Covering Dubai, Abu Dhabi, Sharjah.
    MiddleEastUAE,
    /// Middle East (Bahrain) - Covering Manama, Riffa, Muharraq.
    MiddleEastBahrain,
    /// Asia Pacific (Tokyo) - Covering Tokyo, Yokohama, Osaka.
    AsiaPacificTokyo,
    /// Asia Pacific (Seoul) - Covering Seoul, Incheon, Busan.
    AsiaPacificSeoul,
    /// Asia Pacific (Osaka) - Covering Osaka, Kyoto, Kobe.
    AsiaPacificOsaka,
    /// Asia Pacific (Mumbai) - Covering Mumbai, Pune, Nagpur.
    AsiaPacificMumbai,
    /// Asia Pacific (Singapore) - Covering Singapore, Johor Bahru, Batam.
    AsiaPacificSingapore,
    /// Asia Pacific (Sydney) - Covering Sydney, Canberra, Newcastle.
    AsiaPacificSydney,
    /// Canada (Central) - Covering Toronto, Ottawa, Montreal.
    CanadaCentral,
    /// Europe (Frankfurt) - Covering Frankfurt, Munich, Stuttgart.
    EuropeFrankfurt,
    /// Europe (Stockholm) - Covering Stockholm, Gothenburg, Malmö.
    EuropeStockholm,
    /// Europe (Ireland) - Covering Dublin, Cork, Limerick.
    EuropeIreland,
    /// Europe (London) - Covering London, Birmingham, Manchester.
    EuropeLondon,
    /// Europe (Paris) - Covering Paris, Lyon, Marseille.
    EuropeParis,
    /// South America (São Paulo) - Covering São Paulo, Rio de Janeiro, Belo Horizonte.
    SouthAmericaSaoPaulo,
    /// US East (N. Virginia) - Covering Washington D.C., Baltimore, Richmond.
    UsEastNVirginia,
    /// US East (Ohio) - Covering Columbus, Cleveland, Cincinnati.
    UsEastOhio,
    /// US West (N. California) - Covering San Francisco, San Jose, Oakland.
    UsWestNCalifornia,
    /// US West (Oregon) - Covering Portland, Eugene, Salem.
    UsWestOregon,
    /// South America (Brazil North) - Covering Amazonas: Manaus, Belém, Santarém.
    BrazilNorth,
    /// South America (Brazil South) - Covering São Paulo, Rio de Janeiro, Curitiba.
    BrazilSouth,
    /// South America (Andean) - Covering Colombia, Peru and Ecuador: Bogotá, Lima, Quito.
    AndeanRegion,
    /// South America (Southern Cone) - Covering Argentina, Chile and Uruguay: Buenos Aires, Santiago, Montevideo.
    SouthernCone,
    /// Any region not listed above.
    Other,
}

/// The name of a region, as the chain stores it.
pub open spec fn region_name(region: Region) -> Seq<char> {
    match region {
        Region::AfricaCapeTown => "AfricaCapeTown"@,
        Region::AsiaPacificHongKong => "AsiaPacificHongKong"@,
        Region::AsiaPacificHyderabad => "AsiaPacificHyderabad"@,
        Region::AsiaPacificJakarta => "AsiaPacificJakarta"@,
        Region::AsiaPacificMelbourne => "AsiaPacificMelbourne"@,
        Region::CanadaCalgary => "CanadaCalgary"@,
        Region::EuropeZurich => "EuropeZurich"@,
        Region::EuropeMilan => "EuropeMilan"@,
        Region::EuropeSpain => "EuropeSpain"@,
        Region::IsraelTelAviv => "IsraelTelAviv"@,
        Region::MiddleEastUAE => "MiddleEastUAE"@,
        Region::MiddleEastBahrain => "MiddleEastBahrain"@,
        Region::AsiaPacificTokyo => "AsiaPacificTokyo"@,
        Region::AsiaPacificSeoul => "AsiaPacificSeoul"@,
        Region::AsiaPacificOsaka => "AsiaPacificOsaka"@,
        Region::AsiaPacificMumbai => "AsiaPacificMumbai"@,
        Region::AsiaPacificSingapore => "AsiaPacificSingapore"@,
        Region::AsiaPacificSydney => "AsiaPacificSydney"@,
        Region::CanadaCentral => "CanadaCentral"@,
        Region::EuropeFrankfurt => "EuropeFrankfurt"@,
        Region::EuropeStockholm => "EuropeStockholm"@,
        Region::EuropeIreland => "EuropeIreland"@,
        Region::EuropeLondon => "EuropeLondon"@,
        Region::EuropeParis => "EuropeParis"@,
        Region::SouthAmericaSaoPaulo => "SouthAmericaSaoPaulo"@,
        Region::UsEastNVirginia => "UsEastNVirginia"@,
        Region::UsEastOhio => "UsEastOhio"@,
        Region::UsWestNCalifornia => "UsWestNCalifornia"@,
        Region::UsWestOregon => "UsWestOregon"@,
        Region::BrazilNorth => "BrazilNorth"@,
        Region::BrazilSouth => "BrazilSouth"@,
        Region::AndeanRegion => "AndeanRegion"@,
        Region::SouthernCone => "SouthernCone"@,
        Region::Other => "Other"@,
    }
}

/// The region that a text names: a region name gives that region, anything else `Other`.
pub open spec fn region_of_text(text: Seq<char>) -> Region {
    if text == "AfricaCapeTown"@ {
        Region::AfricaCapeTown
    } else if text == "AsiaPacificHongKong"@ {
        Region::AsiaPacificHongKong
    } else if text == "AsiaPacificHyderabad"@ {
        Region::AsiaPacificHyderabad
    } else if text == "AsiaPacificJakarta"@ {
        Region::AsiaPacificJakarta
    } else if text == "AsiaPacificMelbourne"@ {
        Region::AsiaPacificMelbourne
    } else if text == "CanadaCalgary"@ {
        Region::CanadaCalgary
    } else if text == "EuropeZurich"@ {
        Region::EuropeZurich
    } else if text == "EuropeMilan"@ {
        Region::EuropeMilan
    } else if text == "EuropeSpain"@ {
        Region::EuropeSpain
    } else if text == "IsraelTelAviv"@ {
        Region::IsraelTelAviv
    } else if text == "MiddleEastUAE"@ {
        Region::MiddleEastUAE
    } else if text == "MiddleEastBahrain"@ {
        Region::MiddleEastBahrain
    } else if text == "AsiaPacificTokyo"@ {
        Region::AsiaPacificTokyo
    } else if text == "AsiaPacificSeoul"@ {
        Region::AsiaPacificSeoul
    } else if text == "AsiaPacificOsaka"@ {
        Region::AsiaPacificOsaka
    } else if text == "AsiaPacificMumbai"@ {
        Region::AsiaPacificMumbai
    } else if text == "AsiaPacificSingapore"@ {
        Region::AsiaPacificSingapore
    } else if text == "AsiaPacificSydney"@ {
        Region::AsiaPacificSydney
    } else if text == "CanadaCentral"@ {
        Region::CanadaCentral
    } else if text == "EuropeFrankfurt"@ {
        Region::EuropeFrankfurt
    } else if text == "EuropeStockholm"@ {
        Region::EuropeStockholm
    } else if text == "EuropeIreland"@ {
        Region::EuropeIreland
    } else if text == "EuropeLondon"@ {
        Region::EuropeLondon
    } else if text == "EuropeParis"@ {
        Region::EuropeParis
    } else if text == "SouthAmericaSaoPaulo"@ {
        Region::SouthAmericaSaoPaulo
    } else if text == "UsEastNVirginia"@ {
        Region::UsEastNVirginia
    } else if text == "UsEastOhio"@ {
        Region::UsEastOhio
    } else if text == "UsWestNCalifornia"@ {
        Region::UsWestNCalifornia
    } else if text == "UsWestOregon"@ {
        Region::UsWestOregon
    } else if text == "BrazilNorth"@ {
        Region::BrazilNorth
    } else if text == "BrazilSouth"@ {
        Region::BrazilSouth
    } else if text == "AndeanRegion"@ {
        Region::AndeanRegion
    } else if text == "SouthernCone"@ {
        Region::SouthernCone
    } else {
        Region::Other
    }
}

/// The region that a text names (an unknown text names the default region).
impl From<&String> for Region {
    fn from(text: &String) -> (r: Region) {
        let s = text.as_str();
        if text_equals(s, "AfricaCapeTown") {
            Region::AfricaCapeTown
        } else if text_equals(s, "AsiaPacificHongKong") {
            Region::AsiaPacificHongKong
        } else if text_equals(s, "AsiaPacificHyderabad") {
            Region::AsiaPacificHyderabad
        } else if text_equals(s, "AsiaPacificJakarta") {
            Region::AsiaPacificJakarta
        } else if text_equals(s, "AsiaPacificMelbourne") {
            Region::AsiaPacificMelbourne
        } else if text_equals(s, "CanadaCalgary") {
            Region::CanadaCalgary
        } else if text_equals(s, "EuropeZurich") {
            Region::EuropeZurich
        } else if text_equals(s, "EuropeMilan") {
            Region::EuropeMilan
        } else if text_equals(s, "EuropeSpain") {
            Region::EuropeSpain
        } else if text_equals(s, "IsraelTelAviv") {
            Region::IsraelTelAviv
        } else if text_equals(s, "MiddleEastUAE") {
            Region::MiddleEastUAE
        } else if text_equals(s, "MiddleEastBahrain") {
            Region::MiddleEastBahrain
        } else if text_equals(s, "AsiaPacificTokyo") {
            Region::AsiaPacificTokyo
        } else if text_equals(s, "AsiaPacificSeoul") {
            Region::AsiaPacificSeoul
        } else if text_equals(s, "AsiaPacificOsaka") {
            Region::AsiaPacificOsaka
        } else if text_equals(s, "AsiaPacificMumbai") {
            Region::AsiaPacificMumbai
        } else if text_equals(s, "AsiaPacificSingapore") {
            Region::AsiaPacificSingapore
        } else if text_equals(s, "AsiaPacificSydney") {
            Region::AsiaPacificSydney
        } else if text_equals(s, "CanadaCentral") {
            Region::CanadaCentral
        } else if text_equals(s, "EuropeFrankfurt") {
            Region::EuropeFrankfurt
        } else if text_equals(s, "EuropeStockholm") {
            Region::EuropeStockholm
        } else if text_equals(s, "EuropeIreland") {
            Region::EuropeIreland
        } else if text_equals(s, "EuropeLondon") {
            Region::EuropeLondon
        } else if text_equals(s, "EuropeParis") {
            Region::EuropeParis
        } else if text_equals(s, "SouthAmericaSaoPaulo") {
            Region::SouthAmericaSaoPaulo
        } else if text_equals(s, "UsEastNVirginia") {
            Region::UsEastNVirginia
        } else if text_equals(s, "UsEastOhio") {
            Region::UsEastOhio
        } else if text_equals(s, "UsWestNCalifornia") {
            Region::UsWestNCalifornia
        } else if text_equals(s, "UsWestOregon") {
            Region::UsWestOregon
        } else if text_equals(s, "BrazilNorth") {
            Region::BrazilNorth
        } else if text_equals(s, "BrazilSouth") {
            Region::BrazilSouth
        } else if text_equals(s, "AndeanRegion") {
            Region::AndeanRegion
        } else if text_equals(s, "SouthernCone") {
            Region::SouthernCone
        } else {
            Region::Other
        }
    }
}

impl FromSpecImpl<&String> for Region {
    open spec fn obeys_from_spec() -> bool {
        true
    }

    open spec fn from_spec(text: &String) -> Region {
        region_of_text(text@)
    }
}

impl Region {
    /// The name of the region as UTF-8 bytes, as the chain stores it.
    pub fn to_bytes(self) -> (r: Vec<u8>)
        ensures
            r@ == encode_utf8(region_name(self)),
    {
        proof {
            reveal_strlit("AfricaCapeTown");
            reveal_strlit("AsiaPacificHongKong");
            reveal_strlit("AsiaPacificHyderabad");
            reveal_strlit("AsiaPacificJakarta");
            reveal_strlit("AsiaPacificMelbourne");
            reveal_strlit("CanadaCalgary");
            reveal_strlit("EuropeZurich");
            reveal_strlit("EuropeMilan");
            reveal_strlit("EuropeSpain");
            reveal_strlit("IsraelTelAviv");
            reveal_strlit("MiddleEastUAE");
            reveal_strlit("MiddleEastBahrain");
            reveal_strlit("AsiaPacificTokyo");
            reveal_strlit("AsiaPacificSeoul");
            reveal_strlit("AsiaPacificOsaka");
            reveal_strlit("AsiaPacificMumbai");
            reveal_strlit("AsiaPacificSingapore");
            reveal_strlit("AsiaPacificSydney");
            reveal_strlit("CanadaCentral");
            reveal_strlit("EuropeFrankfurt");
            reveal_strlit("EuropeStockholm");
            reveal_strlit("EuropeIreland");
            reveal_strlit("EuropeLondon");
            reveal_strlit("EuropeParis");
            reveal_strlit("SouthAmericaSaoPaulo");
            reveal_strlit("UsEastNVirginia");
            reveal_strlit("UsEastOhio");
            reveal_strlit("UsWestNCalifornia");
            reveal_strlit("UsWestOregon");
            reveal_strlit("BrazilNorth");
            reveal_strlit("BrazilSouth");
            reveal_strlit("AndeanRegion");
            reveal_strlit("SouthernCone");
            reveal_strlit("Other");
        }
        let name: &str = match self {
            Region::AfricaCapeTown => "AfricaCapeTown",
            Region::AsiaPacificHongKong => "AsiaPacificHongKong",
            Region::AsiaPacificHyderabad => "AsiaPacificHyderabad",
            Region::AsiaPacificJakarta => "AsiaPacificJakarta",
            Region::AsiaPacificMelbourne => "AsiaPacificMelbourne",
            Region::CanadaCalgary => "CanadaCalgary",
            Region::EuropeZurich => "EuropeZurich",
            Region::EuropeMilan => "EuropeMilan",
            Region::EuropeSpain => "EuropeSpain",
            Region::IsraelTelAviv => "IsraelTelAviv",
            Region::MiddleEastUAE => "MiddleEastUAE",
            Region::MiddleEastBahrain => "MiddleEastBahrain",
            Region::AsiaPacificTokyo => "AsiaPacificTokyo",
            Region::AsiaPacificSeoul => "AsiaPacificSeoul",
            Region::AsiaPacificOsaka => "AsiaPacificOsaka",
            Region::AsiaPacificMumbai => "AsiaPacificMumbai",
            Region::AsiaPacificSingapore => "AsiaPacificSingapore",
            Region::AsiaPacificSydney => "AsiaPacificSydney",
            Region::CanadaCentral => "CanadaCentral",
            Region::EuropeFrankfurt => "EuropeFrankfurt",
            Region::EuropeStockholm => "EuropeStockholm",
            Region::EuropeIreland => "EuropeIreland",
            Region::EuropeLondon => "EuropeLondon",
            Region::EuropeParis => "EuropeParis",
            Region::SouthAmericaSaoPaulo => "SouthAmericaSaoPaulo",
            Region::UsEastNVirginia => "UsEastNVirginia",
            Region::UsEastOhio => "UsEastOhio",
            Region::UsWestNCalifornia => "UsWestNCalifornia",
            Region::UsWestOregon => "UsWestOregon",
            Region::BrazilNorth => "BrazilNorth",
            Region::BrazilSouth => "BrazilSouth",
            Region::AndeanRegion => "AndeanRegion",
            Region::SouthernCone => "SouthernCone",
            Region::Other => "Other",
        };
        text_bytes(name)
    }
}

/// Reading back the name of a region gives that region; in particular the bytes that a
/// pool is created with name the region that was asked for.
pub proof fn lemma_region_name_round_trip(region: Region)
    ensures
        region_of_text(region_name(region)) == region,
{
    match region {
        Region::AfricaCapeTown => {
            reveal_strlit("AfricaCapeTown");
        },
        Region::AsiaPacificHongKong => {
            reveal_strlit("AsiaPacificHongKong");
            reveal_strlit("AfricaCapeTown");
            assert("AsiaPacificHongKong"@.len() != "AfricaCapeTown"@.len());
        },
        Region::AsiaPacificHyderabad => {
            reveal_strlit("AsiaPacificHyderabad");
            reveal_strlit("AfricaCapeTown");
            assert("AsiaPacificHyderabad"@.len() != "AfricaCapeTown"@.len());
            reveal_strlit("AsiaPacificHongKong");
            assert("AsiaPacificHyderabad"@.len() != "AsiaPacificHongKong"@.len());
        },
        Region::AsiaPacificJakarta => {
            reveal_strlit("AsiaPacificJakarta");
            reveal_strlit("AfricaCapeTown");
            assert("AsiaPacificJakarta"@.len() != "AfricaCapeTown"@.len());
            reveal_strlit("AsiaPacificHongKong");
            assert("AsiaPacificJakarta"@.len() != "AsiaPacificHongKong"@.len());
            reveal_strlit("AsiaPacificHyderabad");
            assert("AsiaPacificJakarta"@.len() != "AsiaPacificHyderabad"@.len());
        },
        Region::AsiaPacificMelbourne => {
            reveal_strlit("AsiaPacificMelbourne");
            reveal_strlit("AfricaCapeTown");
            assert("AsiaPacificMelbourne"@.len() != "AfricaCapeTown"@.len());
            reveal_strlit("AsiaPacificHongKong");
            assert("AsiaPacificMelbourne"@.len() != "AsiaPacificHongKong"@.len());
            reveal_strlit("AsiaPacificHyderabad");
            assert("AsiaPacificMelbourne"@[11] != "AsiaPacificHyderabad"@[11]);
            reveal_strlit("AsiaPacificJakarta");
            assert("AsiaPacificMelbourne"@.len() != "AsiaPacificJakarta"@.len());
        },
        Region::CanadaCalgary => {
            reveal_strlit("CanadaCalgary");
            reveal_strlit("AfricaCapeTown");
            assert("CanadaCalgary"@.len() != "AfricaCapeTown"@.len());
            reveal_strlit("AsiaPacificHongKong");
            assert("CanadaCalgary"@.len() != "AsiaPacificHongKong"@.len());
            reveal_strlit("AsiaPacificHyderabad");
            assert("CanadaCalgary"@.len() != "AsiaPacificHyderabad"@.len());
            reveal_strlit("AsiaPacificJakarta");
            assert("CanadaCalgary"@.len() != "AsiaPacificJakarta"@.len());
            reveal_strlit("AsiaPacificMelbourne");
            assert("CanadaCalgary"@.len() != "AsiaPacificMelbourne"@.len());
        },
        Region::EuropeZurich => {
            reveal_strlit("EuropeZurich");
            reveal_strlit("AfricaCapeTown");
            assert("EuropeZurich"@.len() != "AfricaCapeTown"@.len());
            reveal_strlit("AsiaPacificHongKong");
            assert("EuropeZurich"@.len() != "AsiaPacificHongKong"@.len());
            reveal_strlit("AsiaPacificHyderabad");
            assert("EuropeZurich"@.len() != "AsiaPacificHyderabad"@.len());
            reveal_strlit("AsiaPacificJakarta");
            assert("EuropeZurich"@.len() != "AsiaPacificJakarta"@.len());
            reveal_strlit("AsiaPacificMelbourne");
            assert("EuropeZurich"@.len() != "AsiaPacificMelbourne"@.len());
            reveal_strlit("CanadaCalgary");
            assert("EuropeZurich"@.len() != "CanadaCalgary"@.len());
        },
        Region::EuropeMilan => {
            reveal_strlit("EuropeMilan");
            reveal_strlit("AfricaCapeTown");
            assert("EuropeMilan"@.len() != "AfricaCapeTown"@.len());
            reveal_strlit("AsiaPacificHongKong");
            assert("EuropeMilan"@.len() != "AsiaPacificHongKong"@.len());
            reveal_strlit("AsiaPacificHyderabad");
            assert("EuropeMilan"@.len() != "AsiaPacificHyderabad"@.len());
            reveal_strlit("AsiaPacificJakarta");
            assert("EuropeMilan"@.len() != "AsiaPacificJakarta"@.len());
            reveal_strlit("AsiaPacificMelbourne");
            assert("EuropeMilan"@.len() != "AsiaPacificMelbourne"@.len());
            reveal_strlit("CanadaCalgary");
            assert("EuropeMilan"@.len() != "CanadaCalgary"@.len());
            reveal_strlit("EuropeZurich");
            assert("EuropeMilan"@.len() != "EuropeZurich"@.len());
        },
        Region::EuropeSpain => {
            reveal_strlit("EuropeSpain");
            reveal_strlit("AfricaCapeTown");
            assert("EuropeSpain"@.len() != "AfricaCapeTown"@.len());
            reveal_strlit("AsiaPacificHongKong");
            assert("EuropeSpain"@.len() != "AsiaPacificHongKong"@.len());
            reveal_strlit("AsiaPacificHyderabad");
            assert("EuropeSpain"@.len() != "AsiaPacificHyderabad"@.len());
            reveal_strlit("AsiaPacificJakarta");
            assert("EuropeSpain"@.len() != "AsiaPacificJakarta"@.len());
            reveal_strlit("AsiaPacificMelbourne");
            assert("EuropeSpain"@.len() != "AsiaPacificMelbourne"@.len());
            reveal_strlit("CanadaCalgary");
            assert("EuropeSpain"@.len() != "CanadaCalgary"@.len());
            reveal_strlit("EuropeZurich");
            assert("EuropeSpain"@.len() != "EuropeZurich"@.len());
            reveal_strlit("EuropeMilan");
            assert("EuropeSpain"@[6] != "EuropeMilan"@[6]);
        },
        Region::IsraelTelAviv => {
            reveal_strlit("IsraelTelAviv");
            reveal_strlit("AfricaCapeTown");
            assert("IsraelTelAviv"@.len() != "AfricaCapeTown"@.len());
            reveal_strlit("AsiaPacificHongKong");
            assert("IsraelTelAviv"@.len() != "AsiaPacificHongKong"@.len());
            reveal_strlit("AsiaPacificHyderabad");
            assert("IsraelTelAviv"@.len() != "AsiaPacificHyderabad"@.len());
            reveal_strlit("AsiaPacificJakarta");
            assert("IsraelTelAviv"@.len() != "AsiaPacificJakarta"@.len());
            reveal_strlit("AsiaPacificMelbourne");
            assert("IsraelTelAviv"@.len() != "AsiaPacificMelbourne"@.len());
            reveal_strlit("CanadaCalgary");
            assert("IsraelTelAviv"@[0] != "CanadaCalgary"@[0]);
            reveal_strlit("EuropeZurich");
            assert("IsraelTelAviv"@.len() != "EuropeZurich"@.len());
            reveal_strlit("EuropeMilan");
            assert("IsraelTelAviv"@.len() != "EuropeMilan"@.len());
            reveal_strlit("EuropeSpain");
            assert("IsraelTelAviv"@.len() != "EuropeSpain"@.len());
        },
        Region::MiddleEastUAE => {
            reveal_strlit("MiddleEastUAE");
            reveal_strlit("AfricaCapeTown");
            assert("MiddleEastUAE"@.len() != "AfricaCapeTown"@.len());
            reveal_strlit("AsiaPacificHongKong");
            assert("MiddleEastUAE"@.len() != "AsiaPacificHongKong"@.len());
            reveal_strlit("AsiaPacificHyderabad");
            assert("MiddleEastUAE"@.len() != "AsiaPacificHyderabad"@.len());
            reveal_strlit("AsiaPacificJakarta");
            assert("MiddleEastUAE"@.len() != "AsiaPacificJakarta"@.len());
            reveal_strlit("AsiaPacificMelbourne");
            assert("MiddleEastUAE"@.len() != "AsiaPacificMelbourne"@.len());
            reveal_strlit("CanadaCalgary");
            assert("MiddleEastUAE"@[0] != "CanadaCalgary"@[0]);
            reveal_strlit("EuropeZurich");
            assert("MiddleEastUAE"@.len() != "EuropeZurich"@.len());
            reveal_strlit("EuropeMilan");
            assert("MiddleEastUAE"@.len() != "EuropeMilan"@.len());
            reveal_strlit("EuropeSpain");
            assert("MiddleEastUAE"@.len() != "EuropeSpain"@.len());
            reveal_strlit("IsraelTelAviv");
            assert("MiddleEastUAE"@[0] != "IsraelTelAviv"@[0]);
        },
        Region::MiddleEastBahrain => {
            reveal_strlit("MiddleEastBahrain");
            reveal_strlit("AfricaCapeTown");
            assert("MiddleEastBahrain"@.len() != "AfricaCapeTown"@.len());
            reveal_strlit("AsiaPacificHongKong");
            assert("MiddleEastBahrain"@.len() != "AsiaPacificHongKong"@.len());
            reveal_strlit("AsiaPacificHyderabad");
            assert("MiddleEastBahrain"@.len() != "AsiaPacificHyderabad"@.len());
            reveal_strlit("AsiaPacificJakarta");
            assert("MiddleEastBahrain"@.len() != "AsiaPacificJakarta"@.len());
            reveal_strlit("AsiaPacificMelbourne");
            assert("MiddleEastBahrain"@.len() != "AsiaPacificMelbourne"@.len());
            reveal_strlit("CanadaCalgary");
            assert("MiddleEastBahrain"@.len() != "CanadaCalgary"@.len());
            reveal_strlit("EuropeZurich");
            assert("MiddleEastBahrain"@.len() != "EuropeZurich"@.len());
            reveal_strlit("EuropeMilan");
            assert("MiddleEastBahrain"@.len() != "EuropeMilan"@.len());
            reveal_strlit("EuropeSpain");
            assert("MiddleEastBahrain"@.len() != "EuropeSpain"@.len());
            reveal_strlit("IsraelTelAviv");
            assert("MiddleEastBahrain"@.len() != "IsraelTelAviv"@.len());
            reveal_strlit("MiddleEastUAE");
            assert("MiddleEastBahrain"@.len() != "MiddleEastUAE"@.len());
        },
        Region::AsiaPacificTokyo => {
            reveal_strlit("AsiaPacificTokyo");
            reveal_strlit("AfricaCapeTown");
            assert("AsiaPacificTokyo"@.len() != "AfricaCapeTown"@.len());
            reveal_strlit("AsiaPacificHongKong");
            assert("AsiaPacificTokyo"@.len() != "AsiaPacificHongKong"@.len());
            reveal_strlit("AsiaPacificHyderabad");
            assert("AsiaPacificTokyo"@.len() != "AsiaPacificHyderabad"@.len());
            reveal_strlit("AsiaPacificJakarta");
            assert("AsiaPacificTokyo"@.len() != "AsiaPacificJakarta"@.len());
            reveal_strlit("AsiaPacificMelbourne");
            assert("AsiaPacificTokyo"@.len() != "AsiaPacificMelbourne"@.len());
            reveal_strlit("CanadaCalgary");
            assert("AsiaPacificTokyo"@.len() != "CanadaCalgary"@.len());
            reveal_strlit("EuropeZurich");
            assert("AsiaPacificTokyo"@.len() != "EuropeZurich"@.len());
            reveal_strlit("EuropeMilan");
            assert("AsiaPacificTokyo"@.len() != "EuropeMilan"@.len());
            reveal_strlit("EuropeSpain");
            assert("AsiaPacificTokyo"@.len() != "EuropeSpain"@.len());
            reveal_strlit("IsraelTelAviv");
            assert("AsiaPacificTokyo"@.len() != "IsraelTelAviv"@.len());
            reveal_strlit("MiddleEastUAE");
            assert("AsiaPacificTokyo"@.len() != "MiddleEastUAE"@.len());
            reveal_strlit("MiddleEastBahrain");
            assert("AsiaPacificTokyo"@.len() != "MiddleEastBahrain"@.len());
        },
        Region::AsiaPacificSeoul => {
            reveal_strlit("AsiaPacificSeoul");
            reveal_strlit("AfricaCapeTown");
            assert("AsiaPacificSeoul"@.len() != "AfricaCapeTown"@.len());
            reveal_strlit("AsiaPacificHongKong");
            assert("AsiaPacificSeoul"@.len() != "AsiaPacificHongKong"@.len());
            reveal_strlit("AsiaPacificHyderabad");
            assert("AsiaPacificSeoul"@.len() != "AsiaPacificHyderabad"@.len());
            reveal_strlit("AsiaPacificJakarta");
            assert("AsiaPacificSeoul"@.len() != "AsiaPacificJakarta"@.len());
            reveal_strlit("AsiaPacificMelbourne");
            assert("AsiaPacificSeoul"@.len() != "AsiaPacificMelbourne"@.len());
            reveal_strlit("CanadaCalgary");
            assert("AsiaPacificSeoul"@.len() != "CanadaCalgary"@.len());
            reveal_strlit("EuropeZurich");
            assert("AsiaPacificSeoul"@.len() != "EuropeZurich"@.len());
            reveal_strlit("EuropeMilan");
            assert("AsiaPacificSeoul"@.len() != "EuropeMilan"@.len());
            reveal_strlit("EuropeSpain");
            assert("AsiaPacificSeoul"@.len() != "EuropeSpain"@.len());
            reveal_strlit("IsraelTelAviv");
            assert("AsiaPacificSeoul"@.len() != "IsraelTelAviv"@.len());
            reveal_strlit("MiddleEastUAE");
            assert("AsiaPacificSeoul"@.len() != "MiddleEastUAE"@.len());
            reveal_strlit("MiddleEastBahrain");
            assert("AsiaPacificSeoul"@.len() != "MiddleEastBahrain"@.len());
            reveal_strlit("AsiaPacificTokyo");
            assert("AsiaPacificSeoul"@[11] != "AsiaPacificTokyo"@[11]);
        },
        Region::AsiaPacificOsaka => {
            reveal_strlit("AsiaPacificOsaka");
            reveal_strlit("AfricaCapeTown");
            assert("AsiaPacificOsaka"@.len() != "AfricaCapeTown"@.len());
            reveal_strlit("AsiaPacificHongKong");
            assert("AsiaPacificOsaka"@.len() != "AsiaPacificHongKong"@.len());
            reveal_strlit("AsiaPacificHyderabad");
            assert("AsiaPacificOsaka"@.len() != "AsiaPacificHyderabad"@.len());
            reveal_strlit("AsiaPacificJakarta");
            assert("AsiaPacificOsaka"@.len() != "AsiaPacificJakarta"@.len());
            reveal_strlit("AsiaPacificMelbourne");
            assert("AsiaPacificOsaka"@.len() != "AsiaPacificMelbourne"@.len());
            reveal_strlit("CanadaCalgary");
            assert("AsiaPacificOsaka"@.len() != "CanadaCalgary"@.len());
            reveal_strlit("EuropeZurich");
            assert("AsiaPacificOsaka"@.len() != "EuropeZurich"@.len());
            reveal_strlit("EuropeMilan");
            assert("AsiaPacificOsaka"@.len() != "EuropeMilan"@.len());
            reveal_strlit("EuropeSpain");
            assert("AsiaPacificOsaka"@.len() != "EuropeSpain"@.len());
            reveal_strlit("IsraelTelAviv");
            assert("AsiaPacificOsaka"@.len() != "IsraelTelAviv"@.len());
            reveal_strlit("MiddleEastUAE");
            assert("AsiaPacificOsaka"@.len() != "MiddleEastUAE"@.len());
            reveal_strlit("MiddleEastBahrain");
            assert("AsiaPacificOsaka"@.len() != "MiddleEastBahrain"@.len());
            reveal_strlit("AsiaPacificTokyo");
            assert("AsiaPacificOsaka"@[11] != "AsiaPacificTokyo"@[11]);
            reveal_strlit("AsiaPacificSeoul");
            assert("AsiaPacificOsaka"@[11] != "AsiaPacificSeoul"@[11]);
        },
        Region::AsiaPacificMumbai => {
            reveal_strlit("AsiaPacificMumbai");
            reveal_strlit("AfricaCapeTown");
            assert("AsiaPacificMumbai"@.len() != "AfricaCapeTown"@.len());
            reveal_strlit("AsiaPacificHongKong");
            assert("AsiaPacificMumbai"@.len() != "AsiaPacificHongKong"@.len());
            reveal_strlit("AsiaPacificHyderabad");
            assert("AsiaPacificMumbai"@.len() != "AsiaPacificHyderabad"@.len());
            reveal_strlit("AsiaPacificJakarta");
            assert("AsiaPacificMumbai"@.len() != "AsiaPacificJakarta"@.len());
            reveal_strlit("AsiaPacificMelbourne");
            assert("AsiaPacificMumbai"@.len() != "AsiaPacificMelbourne"@.len());
            reveal_strlit("CanadaCalgary");
            assert("AsiaPacificMumbai"@.len() != "CanadaCalgary"@.len());
            reveal_strlit("EuropeZurich");
            assert("AsiaPacificMumbai"@.len() != "EuropeZurich"@.len());
            reveal_strlit("EuropeMilan");
            assert("AsiaPacificMumbai"@.len() != "EuropeMilan"@.len());
            reveal_strlit("EuropeSpain");
            assert("AsiaPacificMumbai"@.len() != "EuropeSpain"@.len());
            reveal_strlit("IsraelTelAviv");
            assert("AsiaPacificMumbai"@.len() != "IsraelTelAviv"@.len());
            reveal_strlit("MiddleEastUAE");
            assert("AsiaPacificMumbai"@.len() != "MiddleEastUAE"@.len());
            reveal_strlit("MiddleEastBahrain");
            assert("AsiaPacificMumbai"@[0] != "MiddleEastBahrain"@[0]);
            reveal_strlit("AsiaPacificTokyo");
            assert("AsiaPacificMumbai"@.len() != "AsiaPacificTokyo"@.len());
            reveal_strlit("AsiaPacificSeoul");
            assert("AsiaPacificMumbai"@.len() != "AsiaPacificSeoul"@.len());
            reveal_strlit("AsiaPacificOsaka");
            assert("AsiaPacificMumbai"@.len() != "AsiaPacificOsaka"@.len());
        },
        Region::AsiaPacificSingapore => {
            reveal_strlit("AsiaPacificSingapore");
            reveal_strlit("AfricaCapeTown");
            assert("AsiaPacificSingapore"@.len() != "AfricaCapeTown"@.len());
            reveal_strlit("AsiaPacificHongKong");
            assert("AsiaPacificSingapore"@.len() != "AsiaPacificHongKong"@.len());
            reveal_strlit("AsiaPacificHyderabad");
            assert("AsiaPacificSingapore"@[11] != "AsiaPacificHyderabad"@[11]);
            reveal_strlit("AsiaPacificJakarta");
            assert("AsiaPacificSingapore"@.len() != "AsiaPacificJakarta"@.len());
            reveal_strlit("AsiaPacificMelbourne");
            assert("AsiaPacificSingapore"@[11] != "AsiaPacificMelbourne"@[11]);
            reveal_strlit("CanadaCalgary");
            assert("AsiaPacificSingapore"@.len() != "CanadaCalgary"@.len());
            reveal_strlit("EuropeZurich");
            assert("AsiaPacificSingapore"@.len() != "EuropeZurich"@.len());
            reveal_strlit("EuropeMilan");
            assert("AsiaPacificSingapore"@.len() != "EuropeMilan"@.len());
            reveal_strlit("EuropeSpain");
            assert("AsiaPacificSingapore"@.len() != "EuropeSpain"@.len());
            reveal_strlit("IsraelTelAviv");
            assert("AsiaPacificSingapore"@.len() != "IsraelTelAviv"@.len());
            reveal_strlit("MiddleEastUAE");
            assert("AsiaPacificSingapore"@.len() != "MiddleEastUAE"@.len());
            reveal_strlit("MiddleEastBahrain");
            assert("AsiaPacificSingapore"@.len() != "MiddleEastBahrain"@.len());
            reveal_strlit("AsiaPacificTokyo");
            assert("AsiaPacificSingapore"@.len() != "AsiaPacificTokyo"@.len());
            reveal_strlit("AsiaPacificSeoul");
            assert("AsiaPacificSingapore"@.len() != "AsiaPacificSeoul"@.len());
            reveal_strlit("AsiaPacificOsaka");
            assert("AsiaPacificSingapore"@.len() != "AsiaPacificOsaka"@.len());
            reveal_strlit("AsiaPacificMumbai");
            assert("AsiaPacificSingapore"@.len() != "AsiaPacificMumbai"@.len());
        },
        Region::AsiaPacificSydney => {
            reveal_strlit("AsiaPacificSydney");
            reveal_strlit("AfricaCapeTown");
            assert("AsiaPacificSydney"@.len() != "AfricaCapeTown"@.len());
            reveal_strlit("AsiaPacificHongKong");
            assert("AsiaPacificSydney"@.len() != "AsiaPacificHongKong"@.len());
            reveal_strlit("AsiaPacificHyderabad");
            assert("AsiaPacificSydney"@.len() != "AsiaPacificHyderabad"@.len());
            reveal_strlit("AsiaPacificJakarta");
            assert("AsiaPacificSydney"@.len() != "AsiaPacificJakarta"@.len());
            reveal_strlit("AsiaPacificMelbourne");
            assert("AsiaPacificSydney"@.len() != "AsiaPacificMelbourne"@.len());
            reveal_strlit("CanadaCalgary");
            assert("AsiaPacificSydney"@.len() != "CanadaCalgary"@.len());
            reveal_strlit("EuropeZurich");
            assert("AsiaPacificSydney"@.len() != "EuropeZurich"@.len());
            reveal_strlit("EuropeMilan");
            assert("AsiaPacificSydney"@.len() != "EuropeMilan"@.len());
            reveal_strlit("EuropeSpain");
            assert("AsiaPacificSydney"@.len() != "EuropeSpain"@.len());
            reveal_strlit("IsraelTelAviv");
            assert("AsiaPacificSydney"@.len() != "IsraelTelAviv"@.len());
            reveal_strlit("MiddleEastUAE");
            assert("AsiaPacificSydney"@.len() != "MiddleEastUAE"@.len());
            reveal_strlit("MiddleEastBahrain");
            assert("AsiaPacificSydney"@[0] != "MiddleEastBahrain"@[0]);
            reveal_strlit("AsiaPacificTokyo");
            assert("AsiaPacificSydney"@.len() != "AsiaPacificTokyo"@.len());
            reveal_strlit("AsiaPacificSeoul");
            assert("AsiaPacificSydney"@.len() != "AsiaPacificSeoul"@.len());
            reveal_strlit("AsiaPacificOsaka");
            assert("AsiaPacificSydney"@.len() != "AsiaPacificOsaka"@.len());
            reveal_strlit("AsiaPacificMumbai");
            assert("AsiaPacificSydney"@[11] != "AsiaPacificMumbai"@[11]);
            reveal_strlit("AsiaPacificSingapore");
            assert("AsiaPacificSydney"@.len() != "AsiaPacificSingapore"@.len());
        },
        Region::CanadaCentral => {
            reveal_strlit("CanadaCentral");
            reveal_strlit("AfricaCapeTown");
            assert("CanadaCentral"@.len() != "AfricaCapeTown"@.len());
            reveal_strlit("AsiaPacificHongKong");
            assert("CanadaCentral"@.len() != "AsiaPacificHongKong"@.len());
            reveal_strlit("AsiaPacificHyderabad");
            assert("CanadaCentral"@.len() != "AsiaPacificHyderabad"@.len());
            reveal_strlit("AsiaPacificJakarta");
            assert("CanadaCentral"@.len() != "AsiaPacificJakarta"@.len());
            reveal_strlit("AsiaPacificMelbourne");
            assert("CanadaCentral"@.len() != "AsiaPacificMelbourne"@.len());
            reveal_strlit("CanadaCalgary");
            assert("CanadaCentral"@[7] != "CanadaCalgary"@[7]);
            reveal_strlit("EuropeZurich");
            assert("CanadaCentral"@.len() != "EuropeZurich"@.len());
            reveal_strlit("EuropeMilan");
            assert("CanadaCentral"@.len() != "EuropeMilan"@.len());
            reveal_strlit("EuropeSpain");
            assert("CanadaCentral"@.len() != "EuropeSpain"@.len());
            reveal_strlit("IsraelTelAviv");
            assert("CanadaCentral"@[0] != "IsraelTelAviv"@[0]);
            reveal_strlit("MiddleEastUAE");
            assert("CanadaCentral"@[0] != "MiddleEastUAE"@[0]);
            reveal_strlit("MiddleEastBahrain");
            assert("CanadaCentral"@.len() != "MiddleEastBahrain"@.len());
            reveal_strlit("AsiaPacificTokyo");
            assert("CanadaCentral"@.len() != "AsiaPacificTokyo"@.len());
            reveal_strlit("AsiaPacificSeoul");
            assert("CanadaCentral"@.len() != "AsiaPacificSeoul"@.len());
            reveal_strlit("AsiaPacificOsaka");
            assert("CanadaCentral"@.len() != "AsiaPacificOsaka"@.len());
            reveal_strlit("AsiaPacificMumbai");
            assert("CanadaCentral"@.len() != "AsiaPacificMumbai"@.len());
            reveal_strlit("AsiaPacificSingapore");
            assert("CanadaCentral"@.len() != "AsiaPacificSingapore"@.len());
            reveal_strlit("AsiaPacificSydney");
            assert("CanadaCentral"@.len() != "AsiaPacificSydney"@.len());
        },
        Region::EuropeFrankfurt => {
            reveal_strlit("EuropeFrankfurt");
            reveal_strlit("AfricaCapeTown");
            assert("EuropeFrankfurt"@.len() != "AfricaCapeTown"@.len());
            reveal_strlit("AsiaPacificHongKong");
            assert("EuropeFrankfurt"@.len() != "AsiaPacificHongKong"@.len());
            reveal_strlit("AsiaPacificHyderabad");
            assert("EuropeFrankfurt"@.len() != "AsiaPacificHyderabad"@.len());
            reveal_strlit("AsiaPacificJakarta");
            assert("EuropeFrankfurt"@.len() != "AsiaPacificJakarta"@.len());
            reveal_strlit("AsiaPacificMelbourne");
            assert("EuropeFrankfurt"@.len() != "AsiaPacificMelbourne"@.len());
            reveal_strlit("CanadaCalgary");
            assert("EuropeFrankfurt"@.len() != "CanadaCalgary"@.len());
            reveal_strlit("EuropeZurich");
            assert("EuropeFrankfurt"@.len() != "EuropeZurich"@.len());
            reveal_strlit("EuropeMilan");
            assert("EuropeFrankfurt"@.len() != "EuropeMilan"@.len());
            reveal_strlit("EuropeSpain");
            assert("EuropeFrankfurt"@.len() != "EuropeSpain"@.len());
            reveal_strlit("IsraelTelAviv");
            assert("EuropeFrankfurt"@.len() != "IsraelTelAviv"@.len());
            reveal_strlit("MiddleEastUAE");
            assert("EuropeFrankfurt"@.len() != "MiddleEastUAE"@.len());
            reveal_strlit("MiddleEastBahrain");
            assert("EuropeFrankfurt"@.len() != "MiddleEastBahrain"@.len());
            reveal_strlit("AsiaPacificTokyo");
            assert("EuropeFrankfurt"@.len() != "AsiaPacificTokyo"@.len());
            reveal_strlit("AsiaPacificSeoul");
            assert("EuropeFrankfurt"@.len() != "AsiaPacificSeoul"@.len());
            reveal_strlit("AsiaPacificOsaka");
            assert("EuropeFrankfurt"@.len() != "AsiaPacificOsaka"@.len());
            reveal_strlit("AsiaPacificMumbai");
            assert("EuropeFrankfurt"@.len() != "AsiaPacificMumbai"@.len());
            reveal_strlit("AsiaPacificSingapore");
            assert("EuropeFrankfurt"@.len() != "AsiaPacificSingapore"@.len());
            reveal_strlit("AsiaPacificSydney");
            assert("EuropeFrankfurt"@.len() != "AsiaPacificSydney"@.len());
            reveal_strlit("CanadaCentral");
            assert("EuropeFrankfurt"@.len() != "CanadaCentral"@.len());
        },
        Region::EuropeStockholm => {
            reveal_strlit("EuropeStockholm");
            reveal_strlit("AfricaCapeTown");
            assert("EuropeStockholm"@.len() != "AfricaCapeTown"@.len());
            reveal_strlit("AsiaPacificHongKong");
            assert("EuropeStockholm"@.len() != "AsiaPacificHongKong"@.len());
            reveal_strlit("AsiaPacificHyderabad");
            assert("EuropeStockholm"@.len() != "AsiaPacificHyderabad"@.len());
            reveal_strlit("AsiaPacificJakarta");
            assert("EuropeStockholm"@.len() != "AsiaPacificJakarta"@.len());
            reveal_strlit("AsiaPacificMelbourne");
            assert("EuropeStockholm"@.len() != "AsiaPacificMelbourne"@.len());
            reveal_strlit("CanadaCalgary");
            assert("EuropeStockholm"@.len() != "CanadaCalgary"@.len());
            reveal_strlit("EuropeZurich");
            assert("EuropeStockholm"@.len() != "EuropeZurich"@.len());
            reveal_strlit("EuropeMilan");
            assert("EuropeStockholm"@.len() != "EuropeMilan"@.len());
            reveal_strlit("EuropeSpain");
            assert("EuropeStockholm"@.len() != "EuropeSpain"@.len());
            reveal_strlit("IsraelTelAviv");
            assert("EuropeStockholm"@.len() != "IsraelTelAviv"@.len());
            reveal_strlit("MiddleEastUAE");
            assert("EuropeStockholm"@.len() != "MiddleEastUAE"@.len());
            reveal_strlit("MiddleEastBahrain");
            assert("EuropeStockholm"@.len() != "MiddleEastBahrain"@.len());
            reveal_strlit("AsiaPacificTokyo");
            assert("EuropeStockholm"@.len() != "AsiaPacificTokyo"@.len());
            reveal_strlit("AsiaPacificSeoul");
            assert("EuropeStockholm"@.len() != "AsiaPacificSeoul"@.len());
            reveal_strlit("AsiaPacificOsaka");
            assert("EuropeStockholm"@.len() != "AsiaPacificOsaka"@.len());
            reveal_strlit("AsiaPacificMumbai");
            assert("EuropeStockholm"@.len() != "AsiaPacificMumbai"@.len());
            reveal_strlit("AsiaPacificSingapore");
            assert("EuropeStockholm"@.len() != "AsiaPacificSingapore"@.len());
            reveal_strlit("AsiaPacificSydney");
            assert("EuropeStockholm"@.len() != "AsiaPacificSydney"@.len());
            reveal_strlit("CanadaCentral");
            assert("EuropeStockholm"@.len() != "CanadaCentral"@.len());
            reveal_strlit("EuropeFrankfurt");
            assert("EuropeStockholm"@[6] != "EuropeFrankfurt"@[6]);
        },
        Region::EuropeIreland => {
            reveal_strlit("EuropeIreland");
            reveal_strlit("AfricaCapeTown");
            assert("EuropeIreland"@.len() != "AfricaCapeTown"@.len());
            reveal_strlit("AsiaPacificHongKong");
            assert("EuropeIreland"@.len() != "AsiaPacificHongKong"@.len());
            reveal_strlit("AsiaPacificHyderabad");
            assert("EuropeIreland"@.len() != "AsiaPacificHyderabad"@.len());
            reveal_strlit("AsiaPacificJakarta");
            assert("EuropeIreland"@.len() != "AsiaPacificJakarta"@.len());
            reveal_strlit("AsiaPacificMelbourne");
            assert("EuropeIreland"@.len() != "AsiaPacificMelbourne"@.len());
            reveal_strlit("CanadaCalgary");
            assert("EuropeIreland"@[0] != "CanadaCalgary"@[0]);
            reveal_strlit("EuropeZurich");
            assert("EuropeIreland"@.len() != "EuropeZurich"@.len());
            reveal_strlit("EuropeMilan");
            assert("EuropeIreland"@.len() != "EuropeMilan"@.len());
            reveal_strlit("EuropeSpain");
            assert("EuropeIreland"@.len() != "EuropeSpain"@.len());
            reveal_strlit("IsraelTelAviv");
            assert("EuropeIreland"@[0] != "IsraelTelAviv"@[0]);
            reveal_strlit("MiddleEastUAE");
            assert("EuropeIreland"@[0] != "MiddleEastUAE"@[0]);
            reveal_strlit("MiddleEastBahrain");
            assert("EuropeIreland"@.len() != "MiddleEastBahrain"@.len());
            reveal_strlit("AsiaPacificTokyo");
            assert("EuropeIreland"@.len() != "AsiaPacificTokyo"@.len());
            reveal_strlit("AsiaPacificSeoul");
            assert("EuropeIreland"@.len() != "AsiaPacificSeoul"@.len());
            reveal_strlit("AsiaPacificOsaka");
            assert("EuropeIreland"@.len() != "AsiaPacificOsaka"@.len());
            reveal_strlit("AsiaPacificMumbai");
            assert("EuropeIreland"@.len() != "AsiaPacificMumbai"@.len());
            reveal_strlit("AsiaPacificSingapore");
            assert("EuropeIreland"@.len() != "AsiaPacificSingapore"@.len());
            reveal_strlit("AsiaPacificSydney");
            assert("EuropeIreland"@.len() != "AsiaPacificSydney"@.len());
            reveal_strlit("CanadaCentral");
            assert("EuropeIreland"@[0] != "CanadaCentral"@[0]);
            reveal_strlit("EuropeFrankfurt");
            assert("EuropeIreland"@.len() != "EuropeFrankfurt"@.len());
            reveal_strlit("EuropeStockholm");
            assert("EuropeIreland"@.len() != "EuropeStockholm"@.len());
        },
        Region::EuropeLondon => {
            reveal_strlit("EuropeLondon");
            reveal_strlit("AfricaCapeTown");
            assert("EuropeLondon"@.len() != "AfricaCapeTown"@.len());
            reveal_strlit("AsiaPacificHongKong");
            assert("EuropeLondon"@.len() != "AsiaPacificHongKong"@.len());
            reveal_strlit("AsiaPacificHyderabad");
            assert("EuropeLondon"@.len() != "AsiaPacificHyderabad"@.len());
            reveal_strlit("AsiaPacificJakarta");
            assert("EuropeLondon"@.len() != "AsiaPacificJakarta"@.len());
            reveal_strlit("AsiaPacificMelbourne");
            assert("EuropeLondon"@.len() != "AsiaPacificMelbourne"@.len());
            reveal_strlit("CanadaCalgary");
            assert("EuropeLondon"@.len() != "CanadaCalgary"@.len());
            reveal_strlit("EuropeZurich");
            assert("EuropeLondon"@[6] != "EuropeZurich"@[6]);
            reveal_strlit("EuropeMilan");
            assert("EuropeLondon"@.len() != "EuropeMilan"@.len());
            reveal_strlit("EuropeSpain");
            assert("EuropeLondon"@.len() != "EuropeSpain"@.len());
            reveal_strlit("IsraelTelAviv");
            assert("EuropeLondon"@.len() != "IsraelTelAviv"@.len());
            reveal_strlit("MiddleEastUAE");
            assert("EuropeLondon"@.len() != "MiddleEastUAE"@.len());
            reveal_strlit("MiddleEastBahrain");
            assert("EuropeLondon"@.len() != "MiddleEastBahrain"@.len());
            reveal_strlit("AsiaPacificTokyo");
            assert("EuropeLondon"@.len() != "AsiaPacificTokyo"@.len());
            reveal_strlit("AsiaPacificSeoul");
            assert("EuropeLondon"@.len() != "AsiaPacificSeoul"@.len());
            reveal_strlit("AsiaPacificOsaka");
            assert("EuropeLondon"@.len() != "AsiaPacificOsaka"@.len());
            reveal_strlit("AsiaPacificMumbai");
            assert("EuropeLondon"@.len() != "AsiaPacificMumbai"@.len());
            reveal_strlit("AsiaPacificSingapore");
            assert("EuropeLondon"@.len() != "AsiaPacificSingapore"@.len());
            reveal_strlit("AsiaPacificSydney");
            assert("EuropeLondon"@.len() != "AsiaPacificSydney"@.len());
            reveal_strlit("CanadaCentral");
            assert("EuropeLondon"@.len() != "CanadaCentral"@.len());
            reveal_strlit("EuropeFrankfurt");
            assert("EuropeLondon"@.len() != "EuropeFrankfurt"@.len());
            reveal_strlit("EuropeStockholm");
            assert("EuropeLondon"@.len() != "EuropeStockholm"@.len());
            reveal_strlit("EuropeIreland");
            assert("EuropeLondon"@.len() != "EuropeIreland"@.len());
        },
        Region::EuropeParis => {
            reveal_strlit("EuropeParis");
            reveal_strlit("AfricaCapeTown");
            assert("EuropeParis"@.len() != "AfricaCapeTown"@.len());
            reveal_strlit("AsiaPacificHongKong");
            assert("EuropeParis"@.len() != "AsiaPacificHongKong"@.len());
            reveal_strlit("AsiaPacificHyderabad");
            assert("EuropeParis"@.len() != "AsiaPacificHyderabad"@.len());
            reveal_strlit("AsiaPacificJakarta");
            assert("EuropeParis"@.len() != "AsiaPacificJakarta"@.len());
            reveal_strlit("AsiaPacificMelbourne");
            assert("EuropeParis"@.len() != "AsiaPacificMelbourne"@.len());
            reveal_strlit("CanadaCalgary");
            assert("EuropeParis"@.len() != "CanadaCalgary"@.len());
            reveal_strlit("EuropeZurich");
            assert("EuropeParis"@.len() != "EuropeZurich"@.len());
            reveal_strlit("EuropeMilan");
            assert("EuropeParis"@[6] != "EuropeMilan"@[6]);
            reveal_strlit("EuropeSpain");
            assert("EuropeParis"@[6] != "EuropeSpain"@[6]);
            reveal_strlit("IsraelTelAviv");
            assert("EuropeParis"@.len() != "IsraelTelAviv"@.len());
            reveal_strlit("MiddleEastUAE");
            assert("EuropeParis"@.len() != "MiddleEastUAE"@.len());
            reveal_strlit("MiddleEastBahrain");
            assert("EuropeParis"@.len() != "MiddleEastBahrain"@.len());
            reveal_strlit("AsiaPacificTokyo");
            assert("EuropeParis"@.len() != "AsiaPacificTokyo"@.len());
            reveal_strlit("AsiaPacificSeoul");
            assert("EuropeParis"@.len() != "AsiaPacificSeoul"@.len());
            reveal_strlit("AsiaPacificOsaka");
            assert("EuropeParis"@.len() != "AsiaPacificOsaka"@.len());
            reveal_strlit("AsiaPacificMumbai");
            assert("EuropeParis"@.len() != "AsiaPacificMumbai"@.len());
            reveal_strlit("AsiaPacificSingapore");
            assert("EuropeParis"@.len() != "AsiaPacificSingapore"@.len());
            reveal_strlit("AsiaPacificSydney");
            assert("EuropeParis"@.len() != "AsiaPacificSydney"@.len());
            reveal_strlit("CanadaCentral");
            assert("EuropeParis"@.len() != "CanadaCentral"@.len());
            reveal_strlit("EuropeFrankfurt");
            assert("EuropeParis"@.len() != "EuropeFrankfurt"@.len());
            reveal_strlit("EuropeStockholm");
            assert("EuropeParis"@.len() != "EuropeStockholm"@.len());
            reveal_strlit("EuropeIreland");
            assert("EuropeParis"@.len() != "EuropeIreland"@.len());
            reveal_strlit("EuropeLondon");
            assert("EuropeParis"@.len() != "EuropeLondon"@.len());
        },
        Region::SouthAmericaSaoPaulo => {
            reveal_strlit("SouthAmericaSaoPaulo");
            reveal_strlit("AfricaCapeTown");
            assert("SouthAmericaSaoPaulo"@.len() != "AfricaCapeTown"@.len());
            reveal_strlit("AsiaPacificHongKong");
            assert("SouthAmericaSaoPaulo"@.len() != "AsiaPacificHongKong"@.len());
            reveal_strlit("AsiaPacificHyderabad");
            assert("SouthAmericaSaoPaulo"@[0] != "AsiaPacificHyderabad"@[0]);
            reveal_strlit("AsiaPacificJakarta");
            assert("SouthAmericaSaoPaulo"@.len() != "AsiaPacificJakarta"@.len());
            reveal_strlit("AsiaPacificMelbourne");
            assert("SouthAmericaSaoPaulo"@[0] != "AsiaPacificMelbourne"@[0]);
            reveal_strlit("CanadaCalgary");
            assert("SouthAmericaSaoPaulo"@.len() != "CanadaCalgary"@.len());
            reveal_strlit("EuropeZurich");
            assert("SouthAmericaSaoPaulo"@.len() != "EuropeZurich"@.len());
            reveal_strlit("EuropeMilan");
            assert("SouthAmericaSaoPaulo"@.len() != "EuropeMilan"@.len());
            reveal_strlit("EuropeSpain");
            assert("SouthAmericaSaoPaulo"@.len() != "EuropeSpain"@.len());
            reveal_strlit("IsraelTelAviv");
            assert("SouthAmericaSaoPaulo"@.len() != "IsraelTelAviv"@.len());
            reveal_strlit("MiddleEastUAE");
            assert("SouthAmericaSaoPaulo"@.len() != "MiddleEastUAE"@.len());
            reveal_strlit("MiddleEastBahrain");
            assert("SouthAmericaSaoPaulo"@.len() != "MiddleEastBahrain"@.len());
            reveal_strlit("AsiaPacificTokyo");
            assert("SouthAmericaSaoPaulo"@.len() != "AsiaPacificTokyo"@.len());
            reveal_strlit("AsiaPacificSeoul");
            assert("SouthAmericaSaoPaulo"@.len() != "AsiaPacificSeoul"@.len());
            reveal_strlit("AsiaPacificOsaka");
            assert("SouthAmericaSaoPaulo"@.len() != "AsiaPacificOsaka"@.len());
            reveal_strlit("AsiaPacificMumbai");
            assert("SouthAmericaSaoPaulo"@.len() != "AsiaPacificMumbai"@.len());
            reveal_strlit("AsiaPacificSingapore");
            assert("SouthAmericaSaoPaulo"@[0] != "AsiaPacificSingapore"@[0]);
            reveal_strlit("AsiaPacificSydney");
            assert("SouthAmericaSaoPaulo"@.len() != "AsiaPacificSydney"@.len());
            reveal_strlit("CanadaCentral");
            assert("SouthAmericaSaoPaulo"@.len() != "CanadaCentral"@.len());
            reveal_strlit("EuropeFrankfurt");
            assert("SouthAmericaSaoPaulo"@.len() != "EuropeFrankfurt"@.len());
            reveal_strlit("EuropeStockholm");
            assert("SouthAmericaSaoPaulo"@.len() != "EuropeStockholm"@.len());
            reveal_strlit("EuropeIreland");
            assert("SouthAmericaSaoPaulo"@.len() != "EuropeIreland"@.len());
            reveal_strlit("EuropeLondon");
            assert("SouthAmericaSaoPaulo"@.len() != "EuropeLondon"@.len());
            reveal_strlit("EuropeParis");
            assert("SouthAmericaSaoPaulo"@.len() != "EuropeParis"@.len());
        },
        Region::UsEastNVirginia => {
            reveal_strlit("UsEastNVirginia");
            reveal_strlit("AfricaCapeTown");
            assert("UsEastNVirginia"@.len() != "AfricaCapeTown"@.len());
            reveal_strlit("AsiaPacificHongKong");
            assert("UsEastNVirginia"@.len() != "AsiaPacificHongKong"@.len());
            reveal_strlit("AsiaPacificHyderabad");
            assert("UsEastNVirginia"@.len() != "AsiaPacificHyderabad"@.len());
            reveal_strlit("AsiaPacificJakarta");
            assert("UsEastNVirginia"@.len() != "AsiaPacificJakarta"@.len());
            reveal_strlit("AsiaPacificMelbourne");
            assert("UsEastNVirginia"@.len() != "AsiaPacificMelbourne"@.len());
            reveal_strlit("CanadaCalgary");
            assert("UsEastNVirginia"@.len() != "CanadaCalgary"@.len());
            reveal_strlit("EuropeZurich");
            assert("UsEastNVirginia"@.len() != "EuropeZurich"@.len());
            reveal_strlit("EuropeMilan");
            assert("UsEastNVirginia"@.len() != "EuropeMilan"@.len());
            reveal_strlit("EuropeSpain");
            assert("UsEastNVirginia"@.len() != "EuropeSpain"@.len());
            reveal_strlit("IsraelTelAviv");
            assert("UsEastNVirginia"@.len() != "IsraelTelAviv"@.len());
            reveal_strlit("MiddleEastUAE");
            assert("UsEastNVirginia"@.len() != "MiddleEastUAE"@.len());
            reveal_strlit("MiddleEastBahrain");
            assert("UsEastNVirginia"@.len() != "MiddleEastBahrain"@.len());
            reveal_strlit("AsiaPacificTokyo");
            assert("UsEastNVirginia"@.len() != "AsiaPacificTokyo"@.len());
            reveal_strlit("AsiaPacificSeoul");
            assert("UsEastNVirginia"@.len() != "AsiaPacificSeoul"@.len());
            reveal_strlit("AsiaPacificOsaka");
            assert("UsEastNVirginia"@.len() != "AsiaPacificOsaka"@.len());
            reveal_strlit("AsiaPacificMumbai");
            assert("UsEastNVirginia"@.len() != "AsiaPacificMumbai"@.len());
            reveal_strlit("AsiaPacificSingapore");
            assert("UsEastNVirginia"@.len() != "AsiaPacificSingapore"@.len());
            reveal_strlit("AsiaPacificSydney");
            assert("UsEastNVirginia"@.len() != "AsiaPacificSydney"@.len());
            reveal_strlit("CanadaCentral");
            assert("UsEastNVirginia"@.len() != "CanadaCentral"@.len());
            reveal_strlit("EuropeFrankfurt");
            assert("UsEastNVirginia"@[0] != "EuropeFrankfurt"@[0]);
            reveal_strlit("EuropeStockholm");
            assert("UsEastNVirginia"@[0] != "EuropeStockholm"@[0]);
            reveal_strlit("EuropeIreland");
            assert("UsEastNVirginia"@.len() != "EuropeIreland"@.len());
            reveal_strlit("EuropeLondon");
            assert("UsEastNVirginia"@.len() != "EuropeLondon"@.len());
            reveal_strlit("EuropeParis");
            assert("UsEastNVirginia"@.len() != "EuropeParis"@.len());
            reveal_strlit("SouthAmericaSaoPaulo");
            assert("UsEastNVirginia"@.len() != "SouthAmericaSaoPaulo"@.len());
        },
        Region::UsEastOhio => {
            reveal_strlit("UsEastOhio");
            reveal_strlit("AfricaCapeTown");
            assert("UsEastOhio"@.len() != "AfricaCapeTown"@.len());
            reveal_strlit("AsiaPacificHongKong");
            assert("UsEastOhio"@.len() != "AsiaPacificHongKong"@.len());
            reveal_strlit("AsiaPacificHyderabad");
            assert("UsEastOhio"@.len() != "AsiaPacificHyderabad"@.len());
            reveal_strlit("AsiaPacificJakarta");
            assert("UsEastOhio"@.len() != "AsiaPacificJakarta"@.len());
            reveal_strlit("AsiaPacificMelbourne");
            assert("UsEastOhio"@.len() != "AsiaPacificMelbourne"@.len());
            reveal_strlit("CanadaCalgary");
            assert("UsEastOhio"@.len() != "CanadaCalgary"@.len());
            reveal_strlit("EuropeZurich");
            assert("UsEastOhio"@.len() != "EuropeZurich"@.len());
            reveal_strlit("EuropeMilan");
            assert("UsEastOhio"@.len() != "EuropeMilan"@.len());
            reveal_strlit("EuropeSpain");
            assert("UsEastOhio"@.len() != "EuropeSpain"@.len());
            reveal_strlit("IsraelTelAviv");
            assert("UsEastOhio"@.len() != "IsraelTelAviv"@.len());
            reveal_strlit("MiddleEastUAE");
            assert("UsEastOhio"@.len() != "MiddleEastUAE"@.len());
            reveal_strlit("MiddleEastBahrain");
            assert("UsEastOhio"@.len() != "MiddleEastBahrain"@.len());
            reveal_strlit("AsiaPacificTokyo");
            assert("UsEastOhio"@.len() != "AsiaPacificTokyo"@.len());
            reveal_strlit("AsiaPacificSeoul");
            assert("UsEastOhio"@.len() != "AsiaPacificSeoul"@.len());
            reveal_strlit("AsiaPacificOsaka");
            assert("UsEastOhio"@.len() != "AsiaPacificOsaka"@.len());
            reveal_strlit("AsiaPacificMumbai");
            assert("UsEastOhio"@.len() != "AsiaPacificMumbai"@.len());
            reveal_strlit("AsiaPacificSingapore");
            assert("UsEastOhio"@.len() != "AsiaPacificSingapore"@.len());
            reveal_strlit("AsiaPacificSydney");
            assert("UsEastOhio"@.len() != "AsiaPacificSydney"@.len());
            reveal_strlit("CanadaCentral");
            assert("UsEastOhio"@.len() != "CanadaCentral"@.len());
            reveal_strlit("EuropeFrankfurt");
            assert("UsEastOhio"@.len() != "EuropeFrankfurt"@.len());
            reveal_strlit("EuropeStockholm");
            assert("UsEastOhio"@.len() != "EuropeStockholm"@.len());
            reveal_strlit("EuropeIreland");
            assert("UsEastOhio"@.len() != "EuropeIreland"@.len());
            reveal_strlit("EuropeLondon");
            assert("UsEastOhio"@.len() != "EuropeLondon"@.len());
            reveal_strlit("EuropeParis");
            assert("UsEastOhio"@.len() != "EuropeParis"@.len());
            reveal_strlit("SouthAmericaSaoPaulo");
            assert("UsEastOhio"@.len() != "SouthAmericaSaoPaulo"@.len());
            reveal_strlit("UsEastNVirginia");
            assert("UsEastOhio"@.len() != "UsEastNVirginia"@.len());
        },
        Region::UsWestNCalifornia => {
            reveal_strlit("UsWestNCalifornia");
            reveal_strlit("AfricaCapeTown");
            assert("UsWestNCalifornia"@.len() != "AfricaCapeTown"@.len());
            reveal_strlit("AsiaPacificHongKong");
            assert("UsWestNCalifornia"@.len() != "AsiaPacificHongKong"@.len());
            reveal_strlit("AsiaPacificHyderabad");
            assert("UsWestNCalifornia"@.len() != "AsiaPacificHyderabad"@.len());
            reveal_strlit("AsiaPacificJakarta");
            assert("UsWestNCalifornia"@.len() != "AsiaPacificJakarta"@.len());
            reveal_strlit("AsiaPacificMelbourne");
            assert("UsWestNCalifornia"@.len() != "AsiaPacificMelbourne"@.len());
            reveal_strlit("CanadaCalgary");
            assert("UsWestNCalifornia"@.len() != "CanadaCalgary"@.len());
            reveal_strlit("EuropeZurich");
            assert("UsWestNCalifornia"@.len() != "EuropeZurich"@.len());
            reveal_strlit("EuropeMilan");
            assert("UsWestNCalifornia"@.len() != "EuropeMilan"@.len());
            reveal_strlit("EuropeSpain");
            assert("UsWestNCalifornia"@.len() != "EuropeSpain"@.len());
            reveal_strlit("IsraelTelAviv");
            assert("UsWestNCalifornia"@.len() != "IsraelTelAviv"@.len());
            reveal_strlit("MiddleEastUAE");
            assert("UsWestNCalifornia"@.len() != "MiddleEastUAE"@.len());
            reveal_strlit("MiddleEastBahrain");
            assert("UsWestNCalifornia"@[0] != "MiddleEastBahrain"@[0]);
            reveal_strlit("AsiaPacificTokyo");
            assert("UsWestNCalifornia"@.len() != "AsiaPacificTokyo"@.len());
            reveal_strlit("AsiaPacificSeoul");
            assert("UsWestNCalifornia"@.len() != "AsiaPacificSeoul"@.len());
            reveal_strlit("AsiaPacificOsaka");
            assert("UsWestNCalifornia"@.len() != "AsiaPacificOsaka"@.len());
            reveal_strlit("AsiaPacificMumbai");
            assert("UsWestNCalifornia"@[0] != "AsiaPacificMumbai"@[0]);
            reveal_strlit("AsiaPacificSingapore");
            assert("UsWestNCalifornia"@.len() != "AsiaPacificSingapore"@.len());
            reveal_strlit("AsiaPacificSydney");
            assert("UsWestNCalifornia"@[0] != "AsiaPacificSydney"@[0]);
            reveal_strlit("CanadaCentral");
            assert("UsWestNCalifornia"@.len() != "CanadaCentral"@.len());
            reveal_strlit("EuropeFrankfurt");
            assert("UsWestNCalifornia"@.len() != "EuropeFrankfurt"@.len());
            reveal_strlit("EuropeStockholm");
            assert("UsWestNCalifornia"@.len() != "EuropeStockholm"@.len());
            reveal_strlit("EuropeIreland");
            assert("UsWestNCalifornia"@.len() != "EuropeIreland"@.len());
            reveal_strlit("EuropeLondon");
            assert("UsWestNCalifornia"@.len() != "EuropeLondon"@.len());
            reveal_strlit("EuropeParis");
            assert("UsWestNCalifornia"@.len() != "EuropeParis"@.len());
            reveal_strlit("SouthAmericaSaoPaulo");
            assert("UsWestNCalifornia"@.len() != "SouthAmericaSaoPaulo"@.len());
            reveal_strlit("UsEastNVirginia");
            assert("UsWestNCalifornia"@.len() != "UsEastNVirginia"@.len());
            reveal_strlit("UsEastOhio");
            assert("UsWestNCalifornia"@.len() != "UsEastOhio"@.len());
        },
        Region::UsWestOregon => {
            reveal_strlit("UsWestOregon");
            reveal_strlit("AfricaCapeTown");
            assert("UsWestOregon"@.len() != "AfricaCapeTown"@.len());
            reveal_strlit("AsiaPacificHongKong");
            assert("UsWestOregon"@.len() != "AsiaPacificHongKong"@.len());
            reveal_strlit("AsiaPacificHyderabad");
            assert("UsWestOregon"@.len() != "AsiaPacificHyderabad"@.len());
            reveal_strlit("AsiaPacificJakarta");
            assert("UsWestOregon"@.len() != "AsiaPacificJakarta"@.len());
            reveal_strlit("AsiaPacificMelbourne");
            assert("UsWestOregon"@.len() != "AsiaPacificMelbourne"@.len());
            reveal_strlit("CanadaCalgary");
            assert("UsWestOregon"@.len() != "CanadaCalgary"@.len());
            reveal_strlit("EuropeZurich");
            assert("UsWestOregon"@[0] != "EuropeZurich"@[0]);
            reveal_strlit("EuropeMilan");
            assert("UsWestOregon"@.len() != "EuropeMilan"@.len());
            reveal_strlit("EuropeSpain");
            assert("UsWestOregon"@.len() != "EuropeSpain"@.len());
            reveal_strlit("IsraelTelAviv");
            assert("UsWestOregon"@.len() != "IsraelTelAviv"@.len());
            reveal_strlit("MiddleEastUAE");
            assert("UsWestOregon"@.len() != "MiddleEastUAE"@.len());
            reveal_strlit("MiddleEastBahrain");
            assert("UsWestOregon"@.len() != "MiddleEastBahrain"@.len());
            reveal_strlit("AsiaPacificTokyo");
            assert("UsWestOregon"@.len() != "AsiaPacificTokyo"@.len());
            reveal_strlit("AsiaPacificSeoul");
            assert("UsWestOregon"@.len() != "AsiaPacificSeoul"@.len());
            reveal_strlit("AsiaPacificOsaka");
            assert("UsWestOregon"@.len() != "AsiaPacificOsaka"@.len());
            reveal_strlit("AsiaPacificMumbai");
            assert("UsWestOregon"@.len() != "AsiaPacificMumbai"@.len());
            reveal_strlit("AsiaPacificSingapore");
            assert("UsWestOregon"@.len() != "AsiaPacificSingapore"@.len());
            reveal_strlit("AsiaPacificSydney");
            assert("UsWestOregon"@.len() != "AsiaPacificSydney"@.len());
            reveal_strlit("CanadaCentral");
            assert("UsWestOregon"@.len() != "CanadaCentral"@.len());
            reveal_strlit("EuropeFrankfurt");
            assert("UsWestOregon"@.len() != "EuropeFrankfurt"@.len());
            reveal_strlit("EuropeStockholm");
            assert("UsWestOregon"@.len() != "EuropeStockholm"@.len());
            reveal_strlit("EuropeIreland");
            assert("UsWestOregon"@.len() != "EuropeIreland"@.len());
            reveal_strlit("EuropeLondon");
            assert("UsWestOregon"@[0] != "EuropeLondon"@[0]);
            reveal_strlit("EuropeParis");
            assert("UsWestOregon"@.len() != "EuropeParis"@.len());
            reveal_strlit("SouthAmericaSaoPaulo");
            assert("UsWestOregon"@.len() != "SouthAmericaSaoPaulo"@.len());
            reveal_strlit("UsEastNVirginia");
            assert("UsWestOregon"@.len() != "UsEastNVirginia"@.len());
            reveal_strlit("UsEastOhio");
            assert("UsWestOregon"@.len() != "UsEastOhio"@.len());
            reveal_strlit("UsWestNCalifornia");
            assert("UsWestOregon"@.len() != "UsWestNCalifornia"@.len());
        },
        Region::BrazilNorth => {
            reveal_strlit("BrazilNorth");
            reveal_strlit("AfricaCapeTown");
            assert("BrazilNorth"@.len() != "AfricaCapeTown"@.len());
            reveal_strlit("AsiaPacificHongKong");
            assert("BrazilNorth"@.len() != "AsiaPacificHongKong"@.len());
            reveal_strlit("AsiaPacificHyderabad");
            assert("BrazilNorth"@.len() != "AsiaPacificHyderabad"@.len());
            reveal_strlit("AsiaPacificJakarta");
            assert("BrazilNorth"@.len() != "AsiaPacificJakarta"@.len());
            reveal_strlit("AsiaPacificMelbourne");
            assert("BrazilNorth"@.len() != "AsiaPacificMelbourne"@.len());
            reveal_strlit("CanadaCalgary");
            assert("BrazilNorth"@.len() != "CanadaCalgary"@.len());
            reveal_strlit("EuropeZurich");
            assert("BrazilNorth"@.len() != "EuropeZurich"@.len());
            reveal_strlit("EuropeMilan");
            assert("BrazilNorth"@[0] != "EuropeMilan"@[0]);
            reveal_strlit("EuropeSpain");
            assert("BrazilNorth"@[0] != "EuropeSpain"@[0]);
            reveal_strlit("IsraelTelAviv");
            assert("BrazilNorth"@.len() != "IsraelTelAviv"@.len());
            reveal_strlit("MiddleEastUAE");
            assert("BrazilNorth"@.len() != "MiddleEastUAE"@.len());
            reveal_strlit("MiddleEastBahrain");
            assert("BrazilNorth"@.len() != "MiddleEastBahrain"@.len());
            reveal_strlit("AsiaPacificTokyo");
            assert("BrazilNorth"@.len() != "AsiaPacificTokyo"@.len());
            reveal_strlit("AsiaPacificSeoul");
            assert("BrazilNorth"@.len() != "AsiaPacificSeoul"@.len());
            reveal_strlit("AsiaPacificOsaka");
            assert("BrazilNorth"@.len() != "AsiaPacificOsaka"@.len());
            reveal_strlit("AsiaPacificMumbai");
            assert("BrazilNorth"@.len() != "AsiaPacificMumbai"@.len());
            reveal_strlit("AsiaPacificSingapore");
            assert("BrazilNorth"@.len() != "AsiaPacificSingapore"@.len());
            reveal_strlit("AsiaPacificSydney");
            assert("BrazilNorth"@.len() != "AsiaPacificSydney"@.len());
            reveal_strlit("CanadaCentral");
            assert("BrazilNorth"@.len() != "CanadaCentral"@.len());
            reveal_strlit("EuropeFrankfurt");
            assert("BrazilNorth"@.len() != "EuropeFrankfurt"@.len());
            reveal_strlit("EuropeStockholm");
            assert("BrazilNorth"@.len() != "EuropeStockholm"@.len());
            reveal_strlit("EuropeIreland");
            assert("BrazilNorth"@.len() != "EuropeIreland"@.len());
            reveal_strlit("EuropeLondon");
            assert("BrazilNorth"@.len() != "EuropeLondon"@.len());
            reveal_strlit("EuropeParis");
            assert("BrazilNorth"@[0] != "EuropeParis"@[0]);
            reveal_strlit("SouthAmericaSaoPaulo");
            assert("BrazilNorth"@.len() != "SouthAmericaSaoPaulo"@.len());
            reveal_strlit("UsEastNVirginia");
            assert("BrazilNorth"@.len() != "UsEastNVirginia"@.len());
            reveal_strlit("UsEastOhio");
            assert("BrazilNorth"@.len() != "UsEastOhio"@.len());
            reveal_strlit("UsWestNCalifornia");
            assert("BrazilNorth"@.len() != "UsWestNCalifornia"@.len());
            reveal_strlit("UsWestOregon");
            assert("BrazilNorth"@.len() != "UsWestOregon"@.len());
        },
        Region::BrazilSouth => {
            reveal_strlit("BrazilSouth");
            reveal_strlit("AfricaCapeTown");
            assert("BrazilSouth"@.len() != "AfricaCapeTown"@.len());
            reveal_strlit("AsiaPacificHongKong");
            assert("BrazilSouth"@.len() != "AsiaPacificHongKong"@.len());
            reveal_strlit("AsiaPacificHyderabad");
            assert("BrazilSouth"@.len() != "AsiaPacificHyderabad"@.len());
            reveal_strlit("AsiaPacificJakarta");
            assert("BrazilSouth"@.len() != "AsiaPacificJakarta"@.len());
            reveal_strlit("AsiaPacificMelbourne");
            assert("BrazilSouth"@.len() != "AsiaPacificMelbourne"@.len());
            reveal_strlit("CanadaCalgary");
            assert("BrazilSouth"@.len() != "CanadaCalgary"@.len());
            reveal_strlit("EuropeZurich");
            assert("BrazilSouth"@.len() != "EuropeZurich"@.len());
            reveal_strlit("EuropeMilan");
            assert("BrazilSouth"@[0] != "EuropeMilan"@[0]);
            reveal_strlit("EuropeSpain");
            assert("BrazilSouth"@[0] != "EuropeSpain"@[0]);
            reveal_strlit("IsraelTelAviv");
            assert("BrazilSouth"@.len() != "IsraelTelAviv"@.len());
            reveal_strlit("MiddleEastUAE");
            assert("BrazilSouth"@.len() != "MiddleEastUAE"@.len());
            reveal_strlit("MiddleEastBahrain");
            assert("BrazilSouth"@.len() != "MiddleEastBahrain"@.len());
            reveal_strlit("AsiaPacificTokyo");
            assert("BrazilSouth"@.len() != "AsiaPacificTokyo"@.len());
            reveal_strlit("AsiaPacificSeoul");
            assert("BrazilSouth"@.len() != "AsiaPacificSeoul"@.len());
            reveal_strlit("AsiaPacificOsaka");
            assert("BrazilSouth"@.len() != "AsiaPacificOsaka"@.len());
            reveal_strlit("AsiaPacificMumbai");
            assert("BrazilSouth"@.len() != "AsiaPacificMumbai"@.len());
            reveal_strlit("AsiaPacificSingapore");
            assert("BrazilSouth"@.len() != "AsiaPacificSingapore"@.len());
            reveal_strlit("AsiaPacificSydney");
            assert("BrazilSouth"@.len() != "AsiaPacificSydney"@.len());
            reveal_strlit("CanadaCentral");
            assert("BrazilSouth"@.len() != "CanadaCentral"@.len());
            reveal_strlit("EuropeFrankfurt");
            assert("BrazilSouth"@.len() != "EuropeFrankfurt"@.len());
            reveal_strlit("EuropeStockholm");
            assert("BrazilSouth"@.len() != "EuropeStockholm"@.len());
            reveal_strlit("EuropeIreland");
            assert("BrazilSouth"@.len() != "EuropeIreland"@.len());
            reveal_strlit("EuropeLondon");
            assert("BrazilSouth"@.len() != "EuropeLondon"@.len());
            reveal_strlit("EuropeParis");
            assert("BrazilSouth"@[0] != "EuropeParis"@[0]);
            reveal_strlit("SouthAmericaSaoPaulo");
            assert("BrazilSouth"@.len() != "SouthAmericaSaoPaulo"@.len());
            reveal_strlit("UsEastNVirginia");
            assert("BrazilSouth"@.len() != "UsEastNVirginia"@.len());
            reveal_strlit("UsEastOhio");
            assert("BrazilSouth"@.len() != "UsEastOhio"@.len());
            reveal_strlit("UsWestNCalifornia");
            assert("BrazilSouth"@.len() != "UsWestNCalifornia"@.len());
            reveal_strlit("UsWestOregon");
            assert("BrazilSouth"@.len() != "UsWestOregon"@.len());
            reveal_strlit("BrazilNorth");
            assert("BrazilSouth"@[6] != "BrazilNorth"@[6]);
        },
        Region::AndeanRegion => {
            reveal_strlit("AndeanRegion");
            reveal_strlit("AfricaCapeTown");
            assert("AndeanRegion"@.len() != "AfricaCapeTown"@.len());
            reveal_strlit("AsiaPacificHongKong");
            assert("AndeanRegion"@.len() != "AsiaPacificHongKong"@.len());
            reveal_strlit("AsiaPacificHyderabad");
            assert("AndeanRegion"@.len() != "AsiaPacificHyderabad"@.len());
            reveal_strlit("AsiaPacificJakarta");
            assert("AndeanRegion"@.len() != "AsiaPacificJakarta"@.len());
            reveal_strlit("AsiaPacificMelbourne");
            assert("AndeanRegion"@.len() != "AsiaPacificMelbourne"@.len());
            reveal_strlit("CanadaCalgary");
            assert("AndeanRegion"@.len() != "CanadaCalgary"@.len());
            reveal_strlit("EuropeZurich");
            assert("AndeanRegion"@[0] != "EuropeZurich"@[0]);
            reveal_strlit("EuropeMilan");
            assert("AndeanRegion"@.len() != "EuropeMilan"@.len());
            reveal_strlit("EuropeSpain");
            assert("AndeanRegion"@.len() != "EuropeSpain"@.len());
            reveal_strlit("IsraelTelAviv");
            assert("AndeanRegion"@.len() != "IsraelTelAviv"@.len());
            reveal_strlit("MiddleEastUAE");
            assert("AndeanRegion"@.len() != "MiddleEastUAE"@.len());
            reveal_strlit("MiddleEastBahrain");
            assert("AndeanRegion"@.len() != "MiddleEastBahrain"@.len());
            reveal_strlit("AsiaPacificTokyo");
            assert("AndeanRegion"@.len() != "AsiaPacificTokyo"@.len());
            reveal_strlit("AsiaPacificSeoul");
            assert("AndeanRegion"@.len() != "AsiaPacificSeoul"@.len());
            reveal_strlit("AsiaPacificOsaka");
            assert("AndeanRegion"@.len() != "AsiaPacificOsaka"@.len());
            reveal_strlit("AsiaPacificMumbai");
            assert("AndeanRegion"@.len() != "AsiaPacificMumbai"@.len());
            reveal_strlit("AsiaPacificSingapore");
            assert("AndeanRegion"@.len() != "AsiaPacificSingapore"@.len());
            reveal_strlit("AsiaPacificSydney");
            assert("AndeanRegion"@.len() != "AsiaPacificSydney"@.len());
            reveal_strlit("CanadaCentral");
            assert("AndeanRegion"@.len() != "CanadaCentral"@.len());
            reveal_strlit("EuropeFrankfurt");
            assert("AndeanRegion"@.len() != "EuropeFrankfurt"@.len());
            reveal_strlit("EuropeStockholm");
            assert("AndeanRegion"@.len() != "EuropeStockholm"@.len());
            reveal_strlit("EuropeIreland");
            assert("AndeanRegion"@.len() != "EuropeIreland"@.len());
            reveal_strlit("EuropeLondon");
            assert("AndeanRegion"@[0] != "EuropeLondon"@[0]);
            reveal_strlit("EuropeParis");
            assert("AndeanRegion"@.len() != "EuropeParis"@.len());
            reveal_strlit("SouthAmericaSaoPaulo");
            assert("AndeanRegion"@.len() != "SouthAmericaSaoPaulo"@.len());
            reveal_strlit("UsEastNVirginia");
            assert("AndeanRegion"@.len() != "UsEastNVirginia"@.len());
            reveal_strlit("UsEastOhio");
            assert("AndeanRegion"@.len() != "UsEastOhio"@.len());
            reveal_strlit("UsWestNCalifornia");
            assert("AndeanRegion"@.len() != "UsWestNCalifornia"@.len());
            reveal_strlit("UsWestOregon");
            assert("AndeanRegion"@[0] != "UsWestOregon"@[0]);
            reveal_strlit("BrazilNorth");
            assert("AndeanRegion"@.len() != "BrazilNorth"@.len());
            reveal_strlit("BrazilSouth");
            assert("AndeanRegion"@.len() != "BrazilSouth"@.len());
        },
        Region::SouthernCone => {
            reveal_strlit("SouthernCone");
            reveal_strlit("AfricaCapeTown");
            assert("SouthernCone"@.len() != "AfricaCapeTown"@.len());
            reveal_strlit("AsiaPacificHongKong");
            assert("SouthernCone"@.len() != "AsiaPacificHongKong"@.len());
            reveal_strlit("AsiaPacificHyderabad");
            assert("SouthernCone"@.len() != "AsiaPacificHyderabad"@.len());
            reveal_strlit("AsiaPacificJakarta");
            assert("SouthernCone"@.len() != "AsiaPacificJakarta"@.len());
            reveal_strlit("AsiaPacificMelbourne");
            assert("SouthernCone"@.len() != "AsiaPacificMelbourne"@.len());
            reveal_strlit("CanadaCalgary");
            assert("SouthernCone"@.len() != "CanadaCalgary"@.len());
            reveal_strlit("EuropeZurich");
            assert("SouthernCone"@[0] != "EuropeZurich"@[0]);
            reveal_strlit("EuropeMilan");
            assert("SouthernCone"@.len() != "EuropeMilan"@.len());
            reveal_strlit("EuropeSpain");
            assert("SouthernCone"@.len() != "EuropeSpain"@.len());
            reveal_strlit("IsraelTelAviv");
            assert("SouthernCone"@.len() != "IsraelTelAviv"@.len());
            reveal_strlit("MiddleEastUAE");
            assert("SouthernCone"@.len() != "MiddleEastUAE"@.len());
            reveal_strlit("MiddleEastBahrain");
            assert("SouthernCone"@.len() != "MiddleEastBahrain"@.len());
            reveal_strlit("AsiaPacificTokyo");
            assert("SouthernCone"@.len() != "AsiaPacificTokyo"@.len());
            reveal_strlit("AsiaPacificSeoul");
            assert("SouthernCone"@.len() != "AsiaPacificSeoul"@.len());
            reveal_strlit("AsiaPacificOsaka");
            assert("SouthernCone"@.len() != "AsiaPacificOsaka"@.len());
            reveal_strlit("AsiaPacificMumbai");
            assert("SouthernCone"@.len() != "AsiaPacificMumbai"@.len());
            reveal_strlit("AsiaPacificSingapore");
            assert("SouthernCone"@.len() != "AsiaPacificSingapore"@.len());
            reveal_strlit("AsiaPacificSydney");
            assert("SouthernCone"@.len() != "AsiaPacificSydney"@.len());
            reveal_strlit("CanadaCentral");
            assert("SouthernCone"@.len() != "CanadaCentral"@.len());
            reveal_strlit("EuropeFrankfurt");
            assert("SouthernCone"@.len() != "EuropeFrankfurt"@.len());
            reveal_strlit("EuropeStockholm");
            assert("SouthernCone"@.len() != "EuropeStockholm"@.len());
            reveal_strlit("EuropeIreland");
            assert("SouthernCone"@.len() != "EuropeIreland"@.len());
            reveal_strlit("EuropeLondon");
            assert("SouthernCone"@[0] != "EuropeLondon"@[0]);
            reveal_strlit("EuropeParis");
            assert("SouthernCone"@.len() != "EuropeParis"@.len());
            reveal_strlit("SouthAmericaSaoPaulo");
            assert("SouthernCone"@.len() != "SouthAmericaSaoPaulo"@.len());
            reveal_strlit("UsEastNVirginia");
            assert("SouthernCone"@.len() != "UsEastNVirginia"@.len());
            reveal_strlit("UsEastOhio");
            assert("SouthernCone"@.len() != "UsEastOhio"@.len());
            reveal_strlit("UsWestNCalifornia");
            assert("SouthernCone"@.len() != "UsWestNCalifornia"@.len());
            reveal_strlit("UsWestOregon");
            assert("SouthernCone"@[0] != "UsWestOregon"@[0]);
            reveal_strlit("BrazilNorth");
            assert("SouthernCone"@.len() != "BrazilNorth"@.len());
            reveal_strlit("BrazilSouth");
            assert("SouthernCone"@.len() != "BrazilSouth"@.len());
            reveal_strlit("AndeanRegion");
            assert("SouthernCone"@[0] != "AndeanRegion"@[0]);
        },
        Region::Other => {
            reveal_strlit("Other");
            reveal_strlit("AfricaCapeTown");
            assert("Other"@.len() != "AfricaCapeTown"@.len());
            reveal_strlit("AsiaPacificHongKong");
            assert("Other"@.len() != "AsiaPacificHongKong"@.len());
            reveal_strlit("AsiaPacificHyderabad");
            assert("Other"@.len() != "AsiaPacificHyderabad"@.len());
            reveal_strlit("AsiaPacificJakarta");
            assert("Other"@.len() != "AsiaPacificJakarta"@.len());
            reveal_strlit("AsiaPacificMelbourne");
            assert("Other"@.len() != "AsiaPacificMelbourne"@.len());
            reveal_strlit("CanadaCalgary");
            assert("Other"@.len() != "CanadaCalgary"@.len());
            reveal_strlit("EuropeZurich");
            assert("Other"@.len() != "EuropeZurich"@.len());
            reveal_strlit("EuropeMilan");
            assert("Other"@.len() != "EuropeMilan"@.len());
            reveal_strlit("EuropeSpain");
            assert("Other"@.len() != "EuropeSpain"@.len());
            reveal_strlit("IsraelTelAviv");
            assert("Other"@.len() != "IsraelTelAviv"@.len());
            reveal_strlit("MiddleEastUAE");
            assert("Other"@.len() != "MiddleEastUAE"@.len());
            reveal_strlit("MiddleEastBahrain");
            assert("Other"@.len() != "MiddleEastBahrain"@.len());
            reveal_strlit("AsiaPacificTokyo");
            assert("Other"@.len() != "AsiaPacificTokyo"@.len());
            reveal_strlit("AsiaPacificSeoul");
            assert("Other"@.len() != "AsiaPacificSeoul"@.len());
            reveal_strlit("AsiaPacificOsaka");
            assert("Other"@.len() != "AsiaPacificOsaka"@.len());
            reveal_strlit("AsiaPacificMumbai");
            assert("Other"@.len() != "AsiaPacificMumbai"@.len());
            reveal_strlit("AsiaPacificSingapore");
            assert("Other"@.len() != "AsiaPacificSingapore"@.len());
            reveal_strlit("AsiaPacificSydney");
            assert("Other"@.len() != "AsiaPacificSydney"@.len());
            reveal_strlit("CanadaCentral");
            assert("Other"@.len() != "CanadaCentral"@.len());
            reveal_strlit("EuropeFrankfurt");
            assert("Other"@.len() != "EuropeFrankfurt"@.len());
            reveal_strlit("EuropeStockholm");
            assert("Other"@.len() != "EuropeStockholm"@.len());
            reveal_strlit("EuropeIreland");
            assert("Other"@.len() != "EuropeIreland"@.len());
            reveal_strlit("EuropeLondon");
            assert("Other"@.len() != "EuropeLondon"@.len());
            reveal_strlit("EuropeParis");
            assert("Other"@.len() != "EuropeParis"@.len());
            reveal_strlit("SouthAmericaSaoPaulo");
            assert("Other"@.len() != "SouthAmericaSaoPaulo"@.len());
            reveal_strlit("UsEastNVirginia");
            assert("Other"@.len() != "UsEastNVirginia"@.len());
            reveal_strlit("UsEastOhio");
            assert("Other"@.len() != "UsEastOhio"@.len());
            reveal_strlit("UsWestNCalifornia");
            assert("Other"@.len() != "UsWestNCalifornia"@.len());
            reveal_strlit("UsWestOregon");
            assert("Other"@.len() != "UsWestOregon"@.len());
            reveal_strlit("BrazilNorth");
            assert("Other"@.len() != "BrazilNorth"@.len());
            reveal_strlit("BrazilSouth");
            assert("Other"@.len() != "BrazilSouth"@.len());
            reveal_strlit("AndeanRegion");
            assert("Other"@.len() != "AndeanRegion"@.len());
            reveal_strlit("SouthernCone");
            assert("Other"@.len() != "SouthernCone"@.len());
        },
    }
}

} // verus!
