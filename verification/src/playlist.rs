//! The listing of a playlist: from the lines that the external tool prints,
//! one JSON record on each, to the summaries that are shown.

use vstd::prelude::*;
use vstd::string::*;

use crate::duration::{duration_text, format_duration, nearest_whole_second, whole_seconds};
use crate::error::{message_of, ErrorModel, OrchestratorError};
use crate::json::{
    as_items,
    as_number_bits,
    as_text,
    error_text,
    json_document,
    json_error_text,
    json_items,
    json_member,
    json_number_bits,
    json_text,
    member,
    parse_document,
};
use crate::text::{
    blank,
    decimal,
    is_blank,
    lines_of,
    optional_text,
    push_decimal,
    split_lines,
    views,
};

verus! {

/// What is shown of one video of a playlist. A field that the record does
/// not give is empty.
#[derive(Debug, PartialEq, Eq)]
pub struct PlaylistVideo {
    pub id: String,
    pub title: String,
    /// The address of the first thumbnail.
    pub thumbnail: String,
    /// `MM:SS`, or `HH:MM:SS` from one hour on.
    pub duration: String,
    pub uploader: String,
}

/// A [`PlaylistVideo`] with its fields as sequences of characters.
pub struct VideoModel {
    pub id: Seq<char>,
    pub title: Seq<char>,
    pub thumbnail: Seq<char>,
    pub duration: Seq<char>,
    pub uploader: Seq<char>,
}

impl View for PlaylistVideo {
    type V = VideoModel;

    open spec fn view(&self) -> VideoModel {
        VideoModel {
            id: self.id@,
            title: self.title@,
            thumbnail: self.thumbnail@,
            duration: self.duration@,
            uploader: self.uploader@,
        }
    }
}

/// What a record holds of the fields that a summary is made of, each as the
/// record gives it, or `None` where it does not.
#[derive(Debug, PartialEq, Eq)]
pub struct RawEntry {
    pub id: Option<String>,
    pub title: Option<String>,
    /// The address of the first thumbnail.
    pub thumbnail: Option<String>,
    /// The duration, where the record gives it as a text.
    pub duration_text: Option<String>,
    /// The duration in seconds, where the record gives it as a number: the
    /// bit pattern of that binary64 number.
    pub duration_bits: Option<u64>,
    pub uploader: Option<String>,
}

/// A [`RawEntry`] with its texts as sequences of characters.
pub struct EntryModel {
    pub id: Option<Seq<char>>,
    pub title: Option<Seq<char>>,
    pub thumbnail: Option<Seq<char>>,
    pub duration_text: Option<Seq<char>>,
    pub duration_bits: Option<u64>,
    pub uploader: Option<Seq<char>>,
}

impl View for RawEntry {
    type V = EntryModel;

    open spec fn view(&self) -> EntryModel {
        EntryModel {
            id: optional_text(self.id),
            title: optional_text(self.title),
            thumbnail: optional_text(self.thumbnail),
            duration_text: optional_text(self.duration_text),
            duration_bits: self.duration_bits,
            uploader: optional_text(self.uploader),
        }
    }
}

/// What one line of the listing turned out to be.
#[derive(Debug, PartialEq, Eq)]
pub enum LineReading {
    /// Nothing but white space.
    Blank,
    /// A JSON document.
    Record(RawEntry),
    /// Something else; `reason` is what the parser said of it.
    Unreadable { reason: String, line: String },
}

/// A [`LineReading`] with its texts as sequences of characters.
pub enum ReadingModel {
    Blank,
    Record(EntryModel),
    Unreadable { reason: Seq<char>, line: Seq<char> },
}

impl View for LineReading {
    type V = ReadingModel;

    open spec fn view(&self) -> ReadingModel {
        match self {
            LineReading::Blank => ReadingModel::Blank,
            LineReading::Record(entry) => ReadingModel::Record(entry@),
            LineReading::Unreadable { reason, line } => ReadingModel::Unreadable {
                reason: reason@,
                line: line@,
            },
        }
    }
}

/// The outcome of a listing, and what there is to report of it.
#[derive(Debug, PartialEq, Eq)]
pub struct Listing {
    /// The summaries, in the order of their lines, or why there are none.
    pub outcome: Result<Vec<PlaylistVideo>, OrchestratorError>,
    /// One warning for each line that could not be read, in their order, and
    /// a closing line.
    pub progress: Vec<String>,
}

/// A [`Listing`] with its texts as sequences of characters.
pub struct ListingModel {
    pub outcome: Result<Seq<VideoModel>, ErrorModel>,
    pub progress: Seq<Seq<char>>,
}

/// The views of a list of summaries.
pub open spec fn video_views(videos: Seq<PlaylistVideo>) -> Seq<VideoModel> {
    videos.map_values(|video: PlaylistVideo| video@)
}

/// The views of a list of readings.
pub open spec fn reading_views(readings: Seq<LineReading>) -> Seq<ReadingModel> {
    readings.map_values(|reading: LineReading| reading@)
}

impl View for Listing {
    type V = ListingModel;

    open spec fn view(&self) -> ListingModel {
        ListingModel {
            outcome: match self.outcome {
                Ok(videos) => Ok(video_views(videos@)),
                Err(error) => Err(error@),
            },
            progress: views(self.progress@),
        }
    }
}

/// Whether a listing is degraded: it delivers summaries, but some line of
/// the output could not be read and was warned of.
pub open spec fn listing_degraded(listing: ListingModel) -> bool {
    listing.outcome is Ok && listing.progress.len() > 1
}

/// A text where there is one, the empty text where there is none.
pub open spec fn text_or_empty(text: Option<Seq<char>>) -> Seq<char> {
    match text {
        Some(inner) => inner,
        None => Seq::empty(),
    }
}

/// The duration that is shown for an entry: its duration text as it is;
/// without one, its number of seconds, rounded and formatted; without
/// either, nothing.
pub open spec fn shown_duration(entry: EntryModel) -> Seq<char> {
    match entry.duration_text {
        Some(text) => text,
        None => match entry.duration_bits {
            Some(bits) => duration_text(whole_seconds(bits)),
            None => Seq::empty(),
        },
    }
}

/// The summary that is made of an entry.
pub open spec fn normalized(entry: EntryModel) -> VideoModel {
    VideoModel {
        id: text_or_empty(entry.id),
        title: text_or_empty(entry.title),
        thumbnail: text_or_empty(entry.thumbnail),
        duration: shown_duration(entry),
        uploader: text_or_empty(entry.uploader),
    }
}

/// The text of the member under `key`, where the document is an object that
/// has such a member and the member is a string.
pub open spec fn text_member(document: serde_json::Value, key: Seq<char>) -> Option<Seq<char>> {
    match json_member(document, key) {
        Some(value) => json_text(value),
        None => None,
    }
}

/// The bit pattern of the number under `key`, where the document is an
/// object that has such a member and the member is a number.
pub open spec fn number_member(document: serde_json::Value, key: Seq<char>) -> Option<u64> {
    match json_member(document, key) {
        Some(value) => json_number_bits(value),
        None => None,
    }
}

/// The address of the first thumbnail: the `url` of the first item of the
/// array under `thumbnails`.
pub open spec fn first_thumbnail(document: serde_json::Value) -> Option<Seq<char>> {
    match json_member(document, "thumbnails"@) {
        Some(thumbnails) => match json_items(thumbnails) {
            Some(items) => if items.len() > 0 {
                text_member(items[0], "url"@)
            } else {
                None
            },
            None => None,
        },
        None => None,
    }
}

/// What a document holds of the fields of a summary.
pub open spec fn entry_of(document: serde_json::Value) -> EntryModel {
    EntryModel {
        id: text_member(document, "id"@),
        title: text_member(document, "title"@),
        thumbnail: first_thumbnail(document),
        duration_text: text_member(document, "duration_string"@),
        duration_bits: number_member(document, "duration"@),
        uploader: text_member(document, "uploader"@),
    }
}

/// What a line turns out to be.
pub open spec fn reading_of(line: Seq<char>) -> ReadingModel {
    if blank(line) {
        ReadingModel::Blank
    } else {
        match json_document(line) {
            Ok(document) => ReadingModel::Record(entry_of(document)),
            Err(error) => ReadingModel::Unreadable { reason: json_error_text(error), line },
        }
    }
}

/// What each of the lines turns out to be.
pub open spec fn readings_of(lines: Seq<Seq<char>>) -> Seq<ReadingModel> {
    lines.map_values(|line: Seq<char>| reading_of(line))
}

/// The warning for a line that could not be read.
pub open spec fn unreadable_warning(reason: Seq<char>, line: Seq<char>) -> Seq<char> {
    "Erreur de désérialisation JSON pour une vidéo : "@ + reason + " - Ligne: "@ + line
}

/// The closing line of a listing that found `count` videos.
pub open spec fn found_report(count: nat) -> Seq<char> {
    "Nombre de vidéos trouvées dans la playlist: "@ + decimal(count)
}

/// The summaries of the records among the readings, in their order.
pub open spec fn collected_videos(readings: Seq<ReadingModel>) -> Seq<VideoModel>
    decreases readings.len(),
{
    if readings.len() == 0 {
        Seq::empty()
    } else {
        let before = collected_videos(readings.drop_last());
        match readings.last() {
            ReadingModel::Record(entry) => before.push(normalized(entry)),
            _ => before,
        }
    }
}

/// The warnings for the unreadable lines among the readings, in their order.
pub open spec fn collected_warnings(readings: Seq<ReadingModel>) -> Seq<Seq<char>>
    decreases readings.len(),
{
    if readings.len() == 0 {
        Seq::empty()
    } else {
        let before = collected_warnings(readings.drop_last());
        match readings.last() {
            ReadingModel::Unreadable { reason, line } => before.push(
                unreadable_warning(reason, line),
            ),
            _ => before,
        }
    }
}

/// The listing that a sequence of readings amounts to. Unreadable lines are
/// warned of and passed over. With at least one record the listing holds the
/// summaries; without any it fails as empty, and says whether there were
/// lines that could not be read.
pub open spec fn listing_of(readings: Seq<ReadingModel>) -> ListingModel {
    let videos = collected_videos(readings);
    let warnings = collected_warnings(readings);
    if videos.len() == 0 {
        let error = ErrorModel::PlaylistEmpty { unparsed_data: warnings.len() > 0 };
        ListingModel { outcome: Err(error), progress: warnings.push(message_of(error)) }
    } else {
        ListingModel { outcome: Ok(videos), progress: warnings.push(found_report(videos.len())) }
    }
}

/// A copy of a text that may be missing.
fn owned(text: Option<&str>) -> (copy: Option<String>)
    ensures
        optional_text(copy) == match text {
            Some(inner) => Some(inner@),
            None => None,
        },
{
    match text {
        Some(inner) => Some(String::from_str(inner)),
        None => None,
    }
}

/// The text of the member under `key`.
fn read_text_member(document: &serde_json::Value, key: &str) -> (text: Option<String>)
    ensures
        optional_text(text) == text_member(*document, key@),
{
    match member(document, key) {
        Some(value) => owned(as_text(value)),
        None => None,
    }
}

/// The address of the first thumbnail.
fn read_first_thumbnail(document: &serde_json::Value) -> (address: Option<String>)
    ensures
        optional_text(address) == first_thumbnail(*document),
{
    match member(document, "thumbnails") {
        Some(thumbnails) => match as_items(thumbnails) {
            Some(items) => if items.len() > 0 {
                read_text_member(&items[0], "url")
            } else {
                None
            },
            None => None,
        },
        None => None,
    }
}

/// Takes out of a document what a summary is made of.
fn read_entry(document: &serde_json::Value) -> (entry: RawEntry)
    ensures
        entry@ == entry_of(*document),
{
    let duration_bits = match member(document, "duration") {
        Some(value) => as_number_bits(value),
        None => None,
    };
    RawEntry {
        id: read_text_member(document, "id"),
        title: read_text_member(document, "title"),
        thumbnail: read_first_thumbnail(document),
        duration_text: read_text_member(document, "duration_string"),
        duration_bits,
        uploader: read_text_member(document, "uploader"),
    }
}

/// A copy of a text where there is one, the empty text where there is none.
fn copy_or_empty(text: &Option<String>) -> (out: String)
    ensures
        out@ == text_or_empty(optional_text(*text)),
{
    match text {
        Some(inner) => inner.clone(),
        None => String::new(),
    }
}

/// Makes the summary of an entry: every field that is missing is empty, and
/// the duration is the entry's duration text, or else its number of seconds,
/// rounded to the nearest second and formatted.
pub fn normalize(entry: &RawEntry) -> (video: PlaylistVideo)
    ensures
        video@ == normalized(entry@),
{
    let duration = match &entry.duration_text {
        Some(text) => text.clone(),
        None => match entry.duration_bits {
            Some(bits) => format_duration(nearest_whole_second(bits)),
            None => String::new(),
        },
    };
    PlaylistVideo {
        id: copy_or_empty(&entry.id),
        title: copy_or_empty(&entry.title),
        thumbnail: copy_or_empty(&entry.thumbnail),
        duration,
        uploader: copy_or_empty(&entry.uploader),
    }
}

/// Reads one line of the listing.
pub fn read_line(line: &str) -> (reading: LineReading)
    ensures
        reading@ == reading_of(line@),
{
    if is_blank(line) {
        return LineReading::Blank;
    }
    match parse_document(line) {
        Ok(document) => LineReading::Record(read_entry(&document)),
        Err(error) => LineReading::Unreadable {
            reason: error_text(&error),
            line: String::from_str(line),
        },
    }
}

/// Puts the readings of a listing's lines together.
pub fn assemble(readings: &Vec<LineReading>) -> (listing: Listing)
    ensures
        listing@ == listing_of(reading_views(readings@)),
{
    let ghost models = reading_views(readings@);
    let mut videos: Vec<PlaylistVideo> = Vec::new();
    let mut progress: Vec<String> = Vec::new();
    proof {
        assert(models.take(0) =~= Seq::<ReadingModel>::empty());
        assert(video_views(videos@) =~= Seq::<VideoModel>::empty());
        assert(views(progress@) =~= Seq::<Seq<char>>::empty());
    }
    let mut i: usize = 0;
    while i < readings.len()
        invariant
            i <= readings.len(),
            models == reading_views(readings@),
            video_views(videos@) == collected_videos(models.take(i as int)),
            views(progress@) == collected_warnings(models.take(i as int)),
        decreases readings.len() - i,
    {
        proof {
            assert(models.take(i + 1).drop_last() =~= models.take(i as int));
            assert(models.take(i + 1).last() == readings@[i as int]@);
        }
        match &readings[i] {
            LineReading::Blank => {},
            LineReading::Record(entry) => {
                let video = normalize(entry);
                proof {
                    assert(video_views(videos@.push(video)) =~= video_views(videos@).push(
                        video@,
                    ));
                }
                videos.push(video);
            },
            LineReading::Unreadable { reason, line } => {
                let mut warning = String::from_str(
                    "Erreur de désérialisation JSON pour une vidéo : ",
                );
                warning.append(reason.as_str());
                warning.append(" - Ligne: ");
                warning.append(line.as_str());
                proof {
                    assert(warning@ =~= unreadable_warning(reason@, line@));
                    assert(views(progress@.push(warning)) =~= views(progress@).push(warning@));
                }
                progress.push(warning);
            },
        }
        i += 1;
    }
    proof {
        assert(models.take(readings.len() as int) =~= models);
    }
    if videos.len() == 0 {
        let error = OrchestratorError::PlaylistEmpty { unparsed_data: progress.len() > 0 };
        let closing = error.message();
        proof {
            assert(views(progress@.push(closing)) =~= views(progress@).push(closing@));
        }
        progress.push(closing);
        Listing { outcome: Err(error), progress }
    } else {
        let mut closing = String::from_str("Nombre de vidéos trouvées dans la playlist: ");
        push_decimal(&mut closing, videos.len() as u64);
        proof {
            assert(views(progress@.push(closing)) =~= views(progress@).push(closing@));
        }
        progress.push(closing);
        Listing { outcome: Ok(videos), progress }
    }
}

impl Listing {
    /// Whether the listing is degraded: it delivers summaries, but some line
    /// of the output could not be read. A degraded listing is no failure.
    pub fn is_degraded(&self) -> (degraded: bool)
        ensures
            degraded == listing_degraded(self@),
    {
        match &self.outcome {
            Ok(_) => self.progress.len() > 1,
            Err(_) => false,
        }
    }
}

/// Reads the whole output of a listing run: line by line, blank lines passed
/// over, each other line read as one JSON record.
pub fn parse_listing(output: &str) -> (listing: Listing)
    ensures
        listing@ == listing_of(readings_of(lines_of(output@))),
{
    let lines = split_lines(output);
    let mut readings: Vec<LineReading> = Vec::new();
    let mut i: usize = 0;
    while i < lines.len()
        invariant
            i <= lines.len(),
            reading_views(readings@) =~= readings_of(views(lines@).take(i as int)),
        decreases lines.len() - i,
    {
        let reading = read_line(lines[i].as_str());
        proof {
            assert(reading_views(readings@.push(reading)) =~= reading_views(readings@).push(
                reading@,
            ));
            assert(views(lines@).take(i + 1) =~= views(lines@).take(i as int).push(lines@[i as int]@));
        }
        readings.push(reading);
        i += 1;
    }
    proof {
        assert(views(lines@).take(lines.len() as int) =~= views(lines@));
    }
    assemble(&readings)
}

/// Lines that are blank, each of them, hold no record and raise no warning.
pub proof fn lemma_blank_lines_collect_nothing(lines: Seq<Seq<char>>)
    requires
        forall|i: int| 0 <= i < lines.len() ==> blank(#[trigger] lines[i]),
    ensures
        collected_videos(readings_of(lines)).len() == 0,
        collected_warnings(readings_of(lines)).len() == 0,
    decreases lines.len(),
{
    if lines.len() > 0 {
        let front = lines.drop_last();
        assert forall|i: int| 0 <= i < front.len() implies blank(#[trigger] front[i]) by {
            assert(front[i] == lines[i]);
        }
        lemma_blank_lines_collect_nothing(front);
        assert(readings_of(lines).drop_last() =~= readings_of(front));
        assert(blank(lines[lines.len() - 1]));
        assert(readings_of(lines).last() == ReadingModel::Blank);
    }
}

/// An output that is blank as a whole is an empty playlist: the listing
/// fails, and says that there was nothing to read.
pub proof fn lemma_blank_output_is_an_empty_playlist(output: Seq<char>)
    requires
        blank(output),
    ensures
        listing_of(readings_of(lines_of(output))).outcome == Err::<Seq<VideoModel>, ErrorModel>(
            ErrorModel::PlaylistEmpty { unparsed_data: false },
        ),
{
    crate::text::lemma_lines_of_blank_text(output);
    lemma_blank_lines_collect_nothing(lines_of(output));
}

/// There are as many summaries as there are records among the readings, and
/// as many warnings as there are unreadable lines: never more of both
/// together than there are readings.
pub proof fn lemma_collected_counts(readings: Seq<ReadingModel>)
    ensures
        collected_videos(readings).len() + collected_warnings(readings).len() <= readings.len(),
        collected_videos(readings).len() > 0 <==> exists|i: int|
            0 <= i < readings.len() && #[trigger] readings[i] is Record,
        collected_warnings(readings).len() > 0 <==> exists|i: int|
            0 <= i < readings.len() && #[trigger] readings[i] is Unreadable,
    decreases readings.len(),
{
    if readings.len() > 0 {
        let front = readings.drop_last();
        let last = readings.len() - 1;
        lemma_collected_counts(front);
        if collected_videos(front).len() > 0 {
            let i = choose|i: int| 0 <= i < front.len() && #[trigger] front[i] is Record;
            assert(readings[i] is Record);
        }
        if collected_warnings(front).len() > 0 {
            let i = choose|i: int| 0 <= i < front.len() && #[trigger] front[i] is Unreadable;
            assert(readings[i] is Unreadable);
        }
        if readings[last] is Record {
            assert(collected_videos(readings).len() > 0);
        }
        if readings[last] is Unreadable {
            assert(collected_warnings(readings).len() > 0);
        }
        if exists|i: int| 0 <= i < readings.len() && #[trigger] readings[i] is Record {
            let i = choose|i: int| 0 <= i < readings.len() && #[trigger] readings[i] is Record;
            if i < last {
                assert(front[i] is Record);
            }
        }
        if exists|i: int| 0 <= i < readings.len() && #[trigger] readings[i] is Unreadable {
            let i = choose|i: int|
                0 <= i < readings.len() && #[trigger] readings[i] is Unreadable;
            if i < last {
                assert(front[i] is Unreadable);
            }
        }
    }
}

/// A listing delivers summaries exactly when at least one line was a
/// record. A line that could not be read never makes it fail: it fails only
/// where no line was a record, as an empty playlist.
pub proof fn lemma_listing_succeeds_with_any_record(readings: Seq<ReadingModel>)
    ensures
        listing_of(readings).outcome is Ok <==> exists|i: int|
            0 <= i < readings.len() && #[trigger] readings[i] is Record,
        listing_of(readings).outcome matches Err(error) ==> error == (ErrorModel::PlaylistEmpty {
            unparsed_data: exists|i: int|
                0 <= i < readings.len() && #[trigger] readings[i] is Unreadable,
        }),
        listing_of(readings).outcome matches Ok(videos) ==> 0 < videos.len() <= readings.len(),
{
    lemma_collected_counts(readings);
}

/// A listing is degraded exactly when at least one line was a record and at
/// least one other line could not be read.
pub proof fn lemma_degraded_means_records_and_unreadable_lines(readings: Seq<ReadingModel>)
    ensures
        listing_degraded(listing_of(readings)) <==> (exists|i: int|
            0 <= i < readings.len() && #[trigger] readings[i] is Record) && (exists|i: int|
            0 <= i < readings.len() && #[trigger] readings[i] is Unreadable),
{
    lemma_collected_counts(readings);
}

} // verus!
