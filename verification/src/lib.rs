mod carrier;
mod currency;
mod decode;
mod encode;
mod error;
mod ipaddr;
mod ipparse;
mod json;
mod language;
mod lookup;
mod numtext;
mod render;
mod request;
mod threat;
mod timezone;

pub use carrier::Carrier;
pub use carrier::CarrierV;
pub use currency::Currency;
pub use currency::CurrencyV;
pub use error::IpDataError;
pub use ipaddr::IpAddr;
pub use ipaddr::ip_text;
pub use ipparse::parse_ip;
pub use ipparse::parse_ip_spec;
pub use json::Json;
pub use json::json_of_text;
pub use json::parse_json;
pub use language::Language;
pub use language::LanguageV;
pub use lookup::IpData;
pub use lookup::IpDataV;
pub use lookup::decode_ipdata;
pub use lookup::decode_ipdata_spec;
pub use numtext::parse_u64_spec;
pub use render::render_json;
pub use render::render_spec;
pub use request::Config;
pub use request::api_endpoint;
pub use request::build_request_url;
pub use request::default_url;
pub use request::handle_response;
pub use request::is_success;
pub use request::request_error;
pub use request::resolve_config;
pub use threat::Threat;
pub use timezone::TimeZone;
pub use timezone::TimeZoneV;
