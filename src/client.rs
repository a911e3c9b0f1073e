use vstd::prelude::*;
use crate::comic::{body_complete, comic_from_body, json_object, shows_body, text_block, Comic};
use crate::error::XkcdError;
use crate::image::{image_file_name, image_name_of};
use crate::request::{build_url, metadata_url_text, BASE_URL};

verus! {

/// How the record is printed.
#[derive(Debug, Clone, Copy, PartialEq, Eq, Structural)]
pub enum OutFormat {
    Json,
    Text,
}

/// The options of one run.
#[derive(Debug, Clone, Copy, PartialEq, Eq, Structural)]
pub struct Args {
    /// Seconds allowed for the metadata request.
    pub timeout: u64,
    /// How the record is printed.
    pub output: OutFormat,
    /// The comic to load; the latest one when absent.
    pub num: Option<usize>,
    /// Whether to save the image into the current directory.
    pub save: bool,
}

impl Default for Args {
    fn default() -> (r: Args)
        ensures
            r == (Args { timeout: 30, output: OutFormat::Text, num: None, save: false }),
    {
        Args { timeout: 30, output: OutFormat::Text, num: None, save: false }
    }
}

/// The comic number as a mathematical value.
pub open spec fn num_view(num: Option<usize>) -> Option<nat> {
    match num {
        Some(n) => Some(n as nat),
        None => None,
    }
}

/// What the caller is to do next.
pub enum Action {
    /// Fetch the metadata at `url`, allowing `timeout_secs` seconds, and
    /// hand the outcome to `on_metadata`.
    Fetch { url: String, timeout_secs: u64 },
    /// Download `comic.img_url`, write it to `file_name` in the current
    /// directory, and hand the outcome to `on_image_saved`.
    SaveImage { comic: Comic, file_name: String },
    /// Print this text; the run has succeeded.
    Print(String),
    /// The run has failed with this error.
    Fail(XkcdError),
}

/// `r` is what presenting `c` in format `out` gives.
pub open spec fn presents(out: OutFormat, c: Comic, r: Action) -> bool {
    match out {
        OutFormat::Text => r matches Action::Print(s) && s@ == text_block(c),
        OutFormat::Json => r matches Action::Print(s) && s@ == json_object(c),
    }
}

/// `r` is the step after the record `c` is known: with saving asked for,
/// save the image under the URL's file name, or fail with `Url` when it has
/// none; otherwise present the record.
pub open spec fn after_comic(args: Args, c: Comic, r: Action) -> bool {
    if args.save {
        match image_name_of(c.img_url@) {
            Some(n) => r matches Action::SaveImage { comic, file_name } && comic == c
                && file_name@ == n,
            None => r == Action::Fail(XkcdError::Url),
        }
    } else {
        presents(args.output, c, r)
    }
}

/// `r` is the step after the record of the complete body `doc` is known.
pub open spec fn after_body(args: Args, doc: Seq<char>, r: Action) -> bool {
    exists|c: Comic| #[trigger] shows_body(doc, c) && after_comic(args, c, r)
}

/// A run: fetch the metadata, turn it into a record, optionally save the
/// image, then print. Each step returns the next action; any failure ends
/// the run at once, and nothing is printed after a failure.
pub struct XkcdClient {
    pub args: Args,
}

impl XkcdClient {
    /// A client for one run with these options.
    pub fn new(args: Args) -> (r: Self)
        ensures
            r.args == args,
    {
        XkcdClient { args }
    }

    /// The first action: fetch the metadata of the chosen comic.
    pub fn start(&self) -> (r: Action)
        ensures
            r matches Action::Fetch { url, timeout_secs } && url@ == metadata_url_text(
                BASE_URL@,
                num_view(self.args.num),
            ) && timeout_secs == self.args.timeout,
    {
        Action::Fetch { url: build_url(BASE_URL, self.args.num), timeout_secs: self.args.timeout }
    }

    /// The record in the chosen output format.
    pub fn present(&self, comic: &Comic) -> (r: Action)
        ensures
            presents(self.args.output, *comic, r),
    {
        match self.args.output {
            OutFormat::Text => Action::Print(comic.render_text()),
            OutFormat::Json => match comic.render_json() {
                Ok(s) => Action::Print(s),
                Err(e) => Action::Fail(e),
            },
        }
    }

    /// After the record is known: save its image first when asked to, else
    /// print it.
    pub fn on_comic(&self, comic: Comic) -> (r: Action)
        ensures
            after_comic(self.args, comic, r),
    {
        if self.args.save {
            match image_file_name(comic.img_url.as_str()) {
                Ok(file_name) => Action::SaveImage { comic, file_name },
                Err(e) => Action::Fail(e),
            }
        } else {
            self.present(&comic)
        }
    }

    /// After the metadata request: a failed request ends the run with its
    /// error; a body that is not a complete record ends it with `Parse`;
    /// otherwise the record of the body goes on as `on_comic` says.
    pub fn on_metadata(&self, fetched: Result<String, XkcdError>) -> (r: Action)
        ensures
            fetched matches Err(e) ==> r == Action::Fail(e),
            fetched matches Ok(b) ==> (!body_complete(b@) ==> r == Action::Fail(XkcdError::Parse)),
            fetched matches Ok(b) ==> (body_complete(b@) ==> after_body(self.args, b@, r)),
            !(r is Fetch),
            !self.args.save ==> !(r is SaveImage),
    {
        match fetched {
            Err(e) => Action::Fail(e),
            Ok(body) => {
                let ghost doc = body@;
                match comic_from_body(body) {
                    Ok(comic) => {
                        let ghost c = comic;
                        let r = self.on_comic(comic);
                        assert(shows_body(doc, c) && after_comic(self.args, c, r));
                        r
                    },
                    Err(e) => Action::Fail(e),
                }
            },
        }
    }

    /// After the image was saved, or failed to be: a failure ends the run
    /// without printing; otherwise the record is printed.
    pub fn on_image_saved(&self, comic: &Comic, saved: Result<(), XkcdError>) -> (r: Action)
        ensures
            saved matches Err(e) ==> r == Action::Fail(e),
            saved is Ok ==> presents(self.args.output, *comic, r),
    {
        match saved {
            Err(e) => Action::Fail(e),
            Ok(()) => self.present(comic),
        }
    }
}

} // verus!
