//! The logic of each API endpoint, apart from the requests it makes.
pub mod hot_search;
pub mod weather;
pub mod bing;
pub mod fanyi;
pub mod ip;
pub mod yiyan;
pub mod ys_kaci;
pub mod everyday_60s;
pub mod qrcode;
pub mod cos;
pub mod mishe_cos;
pub mod changgya;
pub mod encryption;
pub mod website_info;
