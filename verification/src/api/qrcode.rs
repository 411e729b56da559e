//! QR code pictures.
use vstd::prelude::*;
use crate::json::{Json, JsonValue};
use crate::text::{chars_of, string_of, concat_str};

verus! {

/// The query of the QR code endpoint: the content, and optional colours and size.
pub struct QueryParams {
    pub q: String,
    pub color: Option<String>,
    pub bgcolor: Option<String>,
    pub size: Option<String>,
}

/// A query value, or its default.
pub open spec fn or_default(v: Option<String>, default: Seq<char>) -> Seq<char> {
    match v {
        Some(s) => s@,
        None => default,
    }
}

/// The address of the QR code service for a content, background colour, colour and size.
pub open spec fn qrcode_url_of(q: Seq<char>, bgcolor: Seq<char>, color: Seq<char>, size: Seq<char>) -> Seq<char> {
    "https://qrcode.hlcode.cn/beautify/style/create?bgColor="@ + bgcolor
        + "&bodyType=1&content="@ + q
        + "&down=0&embedPosition=0&embedText=&embedTextColor=%23000000&embedTextSize=38&eyeInColor=%23000000&eyeOutColor=%23000000&eyeType=8&eyeUseFore=1&fontFamily=0&foreColor="@
        + color
        + "&foreColorImage=&foreColorTwo=&foreType=0&frameColor=&gradientWay=0&level=H&logoShadow=0&logoShap=2&logoUrl=&margin=2&rotate=30&size="@
        + size + "&format=1&qrCodeId=0"@
}

fn or_default_exec<'a>(v: &'a Option<String>, default: &'a str) -> (r: &'a str)
    ensures
        r@ == or_default(*v, default@),
{
    match v {
        Some(s) => s.as_str(),
        None => default,
    }
}

/// The address of the QR code service for the query; the background colour defaults
/// to F4F4F4, the colour to FF6B6B and the size to 400.
pub fn qrcode_url(params: &QueryParams) -> (r: String)
    ensures
        r@ == qrcode_url_of(
            params.q@,
            or_default(params.bgcolor, "F4F4F4"@),
            or_default(params.color, "FF6B6B"@),
            or_default(params.size, "400"@),
        ),
{
    let bgcolor = or_default_exec(&params.bgcolor, "F4F4F4");
    let color = or_default_exec(&params.color, "FF6B6B");
    let size = or_default_exec(&params.size, "400");
    let a = concat_str(&chars_of("https://qrcode.hlcode.cn/beautify/style/create?bgColor="), bgcolor);
    let b = concat_str(&a, "&bodyType=1&content=");
    let c = concat_str(&b, params.q.as_str());
    let d = concat_str(
        &c,
        "&down=0&embedPosition=0&embedText=&embedTextColor=%23000000&embedTextSize=38&eyeInColor=%23000000&eyeOutColor=%23000000&eyeType=8&eyeUseFore=1&fontFamily=0&foreColor=",
    );
    let e = concat_str(&d, color);
    let f = concat_str(
        &e,
        "&foreColorImage=&foreColorTwo=&foreType=0&frameColor=&gradientWay=0&level=H&logoShadow=0&logoShap=2&logoUrl=&margin=2&rotate=30&size=",
    );
    let g = concat_str(&f, size);
    let h = concat_str(&g, "&format=1&qrCodeId=0");
    string_of(&h)
}

/// The address of the picture the QR code service made (`data`).
pub open spec fn qrcode_image_url(res: Json) -> Option<Seq<char>> {
    res.field("data"@).as_str()
}

/// Finds the address of the picture made; the endpoint cannot go on without it.
pub fn qrcode_image_url_of(res: &JsonValue) -> (r: Option<&str>)
    ensures
        r is None <==> qrcode_image_url(res@) is None,
        r matches Some(u) ==> qrcode_image_url(res@) == Some(u@),
{
    match res.get("data") {
        Some(d) => d.as_str(),
        None => None,
    }
}

/// The content type the picture is answered with.
pub const QRCODE_CONTENT_TYPE: &'static str = "image/jpeg";

/// The query's content, background colour, colour and size go under `content`,
/// `bgColor`, `foreColor` and `size`, the colours and size defaulting to F4F4F4,
/// FF6B6B and 400 when not given.
pub proof fn law_qrcode_url(q: Seq<char>, bg: Seq<char>, color: Seq<char>, size: Seq<char>, v: Option<String>, d: Seq<char>)
    ensures
        qrcode_url_of(q, bg, color, size) == "https://qrcode.hlcode.cn/beautify/style/create?bgColor="@ + bg
            + "&bodyType=1&content="@ + q
            + "&down=0&embedPosition=0&embedText=&embedTextColor=%23000000&embedTextSize=38&eyeInColor=%23000000&eyeOutColor=%23000000&eyeType=8&eyeUseFore=1&fontFamily=0&foreColor="@
            + color
            + "&foreColorImage=&foreColorTwo=&foreType=0&frameColor=&gradientWay=0&level=H&logoShadow=0&logoShap=2&logoUrl=&margin=2&rotate=30&size="@
            + size + "&format=1&qrCodeId=0"@,
        v is None ==> or_default(v, d) == d,
        v is Some ==> or_default(v, d) == v->0@,
{
}

} // verus!
