use vstd::prelude::*;
use vstd::string::*;
use crate::decimal::{decimal_text, push_decimal};
use crate::error::XkcdError;
use crate::json::{json_quoted, json_str_at, json_u64_at, quote, str_at, u64_at};

verus! {

/// The fields of a metadata response as found, each `None` when missing or
/// of the wrong kind.
pub struct WireFields {
    pub month: Option<String>,
    pub num: Option<u64>,
    pub link: Option<String>,
    pub year: Option<String>,
    pub news: Option<String>,
    pub safe_title: Option<String>,
    pub transcript: Option<String>,
    pub alt: Option<String>,
    pub img: Option<String>,
    pub title: Option<String>,
    pub day: Option<String>,
}

impl WireFields {
    /// Every field is present and the number fits in `usize`.
    pub open spec fn complete(&self) -> bool {
        &&& self.month is Some
        &&& self.num matches Some(n) && n <= usize::MAX
        &&& self.link is Some
        &&& self.year is Some
        &&& self.news is Some
        &&& self.safe_title is Some
        &&& self.transcript is Some
        &&& self.alt is Some
        &&& self.img is Some
        &&& self.title is Some
        &&& self.day is Some
    }
}

/// The response body `doc` holds every field of a record, each of the
/// right kind, and the number fits in `usize`.
pub open spec fn body_complete(doc: Seq<char>) -> bool {
    &&& json_str_at(doc, "month"@) is Some
    &&& json_u64_at(doc, "num"@) matches Some(n) && n <= usize::MAX
    &&& json_str_at(doc, "link"@) is Some
    &&& json_str_at(doc, "year"@) is Some
    &&& json_str_at(doc, "news"@) is Some
    &&& json_str_at(doc, "safe_title"@) is Some
    &&& json_str_at(doc, "transcript"@) is Some
    &&& json_str_at(doc, "alt"@) is Some
    &&& json_str_at(doc, "img"@) is Some
    &&& json_str_at(doc, "title"@) is Some
    &&& json_str_at(doc, "day"@) is Some
}

/// A comic's metadata as the endpoint sends it.
pub struct ComicResponse {
    pub month: String,
    pub num: usize,
    pub link: String,
    pub year: String,
    pub news: String,
    pub safe_title: String,
    pub transcript: String,
    pub alt: String,
    pub img: String,
    pub title: String,
    pub day: String,
}

impl ComicResponse {
    /// The record holds exactly the values of the complete `f`.
    pub open spec fn holds_fields(&self, f: WireFields) -> bool {
        &&& f.month == Some(self.month)
        &&& f.num == Some(self.num as u64)
        &&& f.link == Some(self.link)
        &&& f.year == Some(self.year)
        &&& f.news == Some(self.news)
        &&& f.safe_title == Some(self.safe_title)
        &&& f.transcript == Some(self.transcript)
        &&& f.alt == Some(self.alt)
        &&& f.img == Some(self.img)
        &&& f.title == Some(self.title)
        &&& f.day == Some(self.day)
    }

    /// The record holds exactly the fields of the response body `doc`.
    pub open spec fn holds_body(&self, doc: Seq<char>) -> bool {
        &&& json_str_at(doc, "month"@) == Some(self.month@)
        &&& json_u64_at(doc, "num"@) == Some(self.num as u64)
        &&& json_str_at(doc, "link"@) == Some(self.link@)
        &&& json_str_at(doc, "year"@) == Some(self.year@)
        &&& json_str_at(doc, "news"@) == Some(self.news@)
        &&& json_str_at(doc, "safe_title"@) == Some(self.safe_title@)
        &&& json_str_at(doc, "transcript"@) == Some(self.transcript@)
        &&& json_str_at(doc, "alt"@) == Some(self.alt@)
        &&& json_str_at(doc, "img"@) == Some(self.img@)
        &&& json_str_at(doc, "title"@) == Some(self.title@)
        &&& json_str_at(doc, "day"@) == Some(self.day@)
    }

    /// Builds the record from its fields; fails with `Parse` when any field
    /// is missing, and never fills one in.
    pub fn from_fields(f: WireFields) -> (r: Result<ComicResponse, XkcdError>)
        ensures
            r is Ok <==> f.complete(),
            r matches Ok(c) ==> c.holds_fields(f),
            r matches Err(e) ==> e == XkcdError::Parse,
    {
        let month = match f.month { Some(x) => x, None => return Err(XkcdError::Parse) };
        let num = match f.num { Some(x) => x, None => return Err(XkcdError::Parse) };
        if num > usize::MAX as u64 {
            return Err(XkcdError::Parse);
        }
        let link = match f.link { Some(x) => x, None => return Err(XkcdError::Parse) };
        let year = match f.year { Some(x) => x, None => return Err(XkcdError::Parse) };
        let news = match f.news { Some(x) => x, None => return Err(XkcdError::Parse) };
        let safe_title = match f.safe_title { Some(x) => x, None => return Err(XkcdError::Parse) };
        let transcript = match f.transcript { Some(x) => x, None => return Err(XkcdError::Parse) };
        let alt = match f.alt { Some(x) => x, None => return Err(XkcdError::Parse) };
        let img = match f.img { Some(x) => x, None => return Err(XkcdError::Parse) };
        let title = match f.title { Some(x) => x, None => return Err(XkcdError::Parse) };
        let day = match f.day { Some(x) => x, None => return Err(XkcdError::Parse) };
        Ok(ComicResponse {
            month,
            num: num as usize,
            link,
            year,
            news,
            safe_title,
            transcript,
            alt,
            img,
            title,
            day,
        })
    }

    /// Parses a metadata response body. Succeeds exactly when the body is a
    /// JSON object holding every field, and the record then holds the
    /// body's fields; otherwise fails with `Parse`.
    pub fn try_from(json: String) -> (r: Result<ComicResponse, XkcdError>)
        ensures
            r is Ok <==> body_complete(json@),
            r matches Ok(c) ==> c.holds_body(json@),
            r matches Err(e) ==> e == XkcdError::Parse,
    {
        let doc = json.as_str();
        let f = WireFields {
            month: str_at(doc, "month"),
            num: u64_at(doc, "num"),
            link: str_at(doc, "link"),
            year: str_at(doc, "year"),
            news: str_at(doc, "news"),
            safe_title: str_at(doc, "safe_title"),
            transcript: str_at(doc, "transcript"),
            alt: str_at(doc, "alt"),
            img: str_at(doc, "img"),
            title: str_at(doc, "title"),
            day: str_at(doc, "day"),
        };
        ComicResponse::from_fields(f)
    }
}

/// A comic as shown to the user.
pub struct Comic {
    pub title: String,
    pub num: usize,
    pub date: String,
    pub desc: String,
    pub img_url: String,
}

/// The composite date: day, month and year as given, joined by `-`.
pub open spec fn date_text(day: Seq<char>, month: Seq<char>, year: Seq<char>) -> Seq<char> {
    day + seq!['-'] + month + seq!['-'] + year
}

/// The labelled text block: one line per field, in a fixed order.
pub open spec fn text_block(c: Comic) -> Seq<char> {
    "Title: "@ + c.title@ + "\n"@
        + "Comic No: "@ + decimal_text(c.num as nat) + "\n"@
        + "Date: "@ + c.date@ + "\n"@
        + "Description: "@ + c.desc@ + "\n"@
        + "Image: "@ + c.img_url@ + "\n"@
}

/// The JSON object of the five fields, in declaration order, with no spaces.
pub open spec fn json_object(c: Comic) -> Seq<char> {
    "{\"title\":"@ + json_quoted(c.title@)
        + ",\"num\":"@ + decimal_text(c.num as nat)
        + ",\"date\":"@ + json_quoted(c.date@)
        + ",\"desc\":"@ + json_quoted(c.desc@)
        + ",\"img_url\":"@ + json_quoted(c.img_url@) + "}"@
}

/// `c` is the presentation record of `cr`.
pub open spec fn maps_to(cr: ComicResponse, c: Comic) -> bool {
    &&& c.title == cr.title
    &&& c.num == cr.num
    &&& c.date@ == date_text(cr.day@, cr.month@, cr.year@)
    &&& c.desc == cr.alt
    &&& c.img_url == cr.img
}

/// `c` is the presentation record of the response body `doc`.
pub open spec fn shows_body(doc: Seq<char>, c: Comic) -> bool {
    &&& json_str_at(doc, "title"@) == Some(c.title@)
    &&& json_u64_at(doc, "num"@) == Some(c.num as u64)
    &&& json_str_at(doc, "day"@) matches Some(d) && json_str_at(doc, "month"@) matches Some(m)
        && json_str_at(doc, "year"@) matches Some(y) && c.date@ == date_text(d, m, y)
    &&& json_str_at(doc, "alt"@) == Some(c.desc@)
    &&& json_str_at(doc, "img"@) == Some(c.img_url@)
}

/// The mapping from a complete wire record is deterministic, and the date of
/// the record it gives is `day-month-year` as found, with no reformatting.
pub proof fn lemma_mapping_deterministic(f: WireFields, cr: ComicResponse, c1: Comic, c2: Comic)
    requires
        f.complete(),
        cr.holds_fields(f),
        maps_to(cr, c1),
        maps_to(cr, c2),
    ensures
        c1.title@ == c2.title@ && c1.num == c2.num && c1.date@ == c2.date@ && c1.desc@
            == c2.desc@ && c1.img_url@ == c2.img_url@,
        f.day matches Some(d) && f.month matches Some(m) && f.year matches Some(y) && c1.date@
            == date_text(d@, m@, y@),
        f.title == Some(c1.title) && f.num == Some(c1.num as u64) && f.alt == Some(c1.desc)
            && f.img == Some(c1.img_url),
{
}

impl Comic {
    /// Maps a response to the presentation record: title, number, alt text
    /// and image URL are carried over, and the date is `day-month-year`.
    pub fn from_response(cr: ComicResponse) -> (r: Comic)
        ensures
            maps_to(cr, r),
    {
        proof {
            reveal_strlit("-");
        }
        let mut date = cr.day.clone();
        date.append("-");
        date.append(cr.month.as_str());
        date.append("-");
        date.append(cr.year.as_str());
        assert(date@ =~= date_text(cr.day@, cr.month@, cr.year@));
        Comic { title: cr.title, num: cr.num, date, desc: cr.alt, img_url: cr.img }
    }

    /// The record as a labelled text block.
    pub fn render_text(&self) -> (r: String)
        ensures
            r@ == text_block(*self),
    {
        let mut r = String::from_str("Title: ");
        r.append(self.title.as_str());
        r.append("\n");
        r.append("Comic No: ");
        push_decimal(&mut r, self.num as u64);
        r.append("\n");
        r.append("Date: ");
        r.append(self.date.as_str());
        r.append("\n");
        r.append("Description: ");
        r.append(self.desc.as_str());
        r.append("\n");
        r.append("Image: ");
        r.append(self.img_url.as_str());
        r.append("\n");
        assert(r@ =~= text_block(*self));
        r
    }

    /// The record as one JSON object. Writing a text as a JSON string
    /// cannot fail, so this always succeeds.
    pub fn render_json(&self) -> (r: Result<String, XkcdError>)
        ensures
            r matches Ok(s) && s@ == json_object(*self),
    {
        let title = match quote(self.title.as_str()) { Ok(q) => q, Err(_) => return Err(XkcdError::Serialization) };
        let date = match quote(self.date.as_str()) { Ok(q) => q, Err(_) => return Err(XkcdError::Serialization) };
        let desc = match quote(self.desc.as_str()) { Ok(q) => q, Err(_) => return Err(XkcdError::Serialization) };
        let img_url = match quote(self.img_url.as_str()) { Ok(q) => q, Err(_) => return Err(XkcdError::Serialization) };
        let mut r = String::from_str("{\"title\":");
        r.append(title.as_str());
        r.append(",\"num\":");
        push_decimal(&mut r, self.num as u64);
        r.append(",\"date\":");
        r.append(date.as_str());
        r.append(",\"desc\":");
        r.append(desc.as_str());
        r.append(",\"img_url\":");
        r.append(img_url.as_str());
        r.append("}");
        assert(r@ =~= json_object(*self));
        Ok(r)
    }
}

} // verus!

verus! {

/// Turns a metadata response body into the presentation record. Succeeds
/// exactly when the body is a complete record; otherwise fails with `Parse`.
pub fn comic_from_body(body: String) -> (r: Result<Comic, XkcdError>)
    ensures
        r is Ok <==> body_complete(body@),
        r matches Ok(c) ==> shows_body(body@, c),
        r matches Err(e) ==> e == XkcdError::Parse,
{
    match ComicResponse::try_from(body) {
        Ok(cr) => {
            let c = Comic::from_response(cr);
            Ok(c)
        },
        Err(e) => Err(e),
    }
}

} // verus!
