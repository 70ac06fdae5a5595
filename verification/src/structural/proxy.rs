//! Proxy: an object that stands in for a service, takes the requests meant
//! for it, and does some work of its own before or in place of the service.
//!
//! Here the service downloads a file, and the proxy keeps what was
//! downloaded, so that each source is downloaded once.

use crate::text::{append_digits, digits, joined};
use crate::transcript::Transcript;
use vstd::hash_map::StringHashMap;
use vstd::prelude::*;

verus! {

/// What was downloaded: its size and its bytes.
#[derive(Debug)]
pub struct Data {
    pub size: u64,
    pub content: Vec<u8>,
}

impl View for Data {
    type V = (u64, Seq<u8>);

    /// The size, and the bytes.
    open spec fn view(&self) -> (u64, Seq<u8>) {
        (self.size, self.content@)
    }
}

impl Clone for Data {
    fn clone(&self) -> (copy: Self)
        ensures
            copy@ == self@,
    {
        Data { size: self.size, content: self.content.clone() }
    }
}

/// Each of `bytes` written in base ten.
pub open spec fn numbers(bytes: Seq<u8>) -> Seq<Seq<char>> {
    Seq::new(bytes.len(), |i: int| digits(bytes[i] as nat))
}

/// Data as it is shown in a line of output.
pub open spec fn shown(data: (u64, Seq<u8>)) -> Seq<char> {
    "Data { size: "@ + digits(data.0 as nat) + ", content: ["@ + joined(numbers(data.1), ", "@)
        + "] }"@
}

/// The line that the download of `source` puts out.
pub open spec fn download_line(source: Seq<char>) -> Seq<char> {
    "Download content of source "@ + source
}

/// The line that is put out when `source` is found among what was kept.
pub open spec fn hit_line(source: Seq<char>, data: (u64, Seq<u8>)) -> Seq<char> {
    "Hit cached "@ + source + " => "@ + shown(data)
}

impl Data {
    /// Appends the data to `out` as it is shown in a line of output.
    pub fn append_to(&self, out: &mut String)
        ensures
            final(out)@ == old(out)@ + shown(self@),
    {
        out.append("Data { size: ");
        append_digits(out, self.size);
        out.append(", content: [");
        let ghost before = out@;
        let mut i: usize = 0;
        while i < self.content.len()
            invariant
                i <= self.content.len(),
                out@ == before + joined(numbers(self.content@.take(i as int)), ", "@),
            decreases self.content.len() - i,
        {
            assert(numbers(self.content@.take(i + 1)).drop_last() =~= numbers(
                self.content@.take(i as int),
            ));
            if i > 0 {
                out.append(", ");
            }
            append_digits(out, self.content[i] as u64);
            i += 1;
        }
        assert(self.content@.take(i as int) =~= self.content@);
        out.append("] }");
    }
}

/// Something that gets the data of a source.
pub trait Download: Sized {
    /// The lines that getting `source` puts out.
    spec fn said(self, source: Seq<char>) -> Seq<Seq<char>>;

    /// Whether getting `source` may hand out `data` and leave `after`
    /// behind.
    spec fn delivers(self, source: Seq<char>, after: Self, data: Data) -> bool;

    /// Gets the data of `source`.
    fn get(&mut self, source: String, out: &mut Transcript) -> (data: Data)
        ensures
            (*old(self)).delivers(source@, *final(self), data),
            final(out)@ == old(out)@ + (*old(self)).said(source@),
    ;
}

/// The service: a file that is downloaded anew each time.
pub struct File {
    pub mime_type: String,
}

impl Clone for File {
    fn clone(&self) -> (copy: Self)
        ensures
            copy == *self,
    {
        File { mime_type: self.mime_type.clone() }
    }
}

/// What every download brings: four bytes, said to be twenty.
pub open spec fn file_data() -> (u64, Seq<u8>) {
    (20, seq![1u8, 2u8, 3u8, 4u8])
}

impl Download for File {
    open spec fn said(self, source: Seq<char>) -> Seq<Seq<char>> {
        seq![download_line(source)]
    }

    open spec fn delivers(self, source: Seq<char>, after: Self, data: Data) -> bool {
        after == self && data@ == file_data()
    }

    fn get(&mut self, source: String, out: &mut Transcript) -> (data: Data) {
        let mut line = "Download content of source ".to_owned();
        line.append(source.as_str());
        out.record(line);
        let mut content: Vec<u8> = Vec::new();
        content.push(1);
        content.push(2);
        content.push(3);
        content.push(4);
        assert(content@ =~= file_data().1);
        Data { size: 20, content }
    }
}

/// The proxy: it keeps what was downloaded, under the source's name.
pub struct DownloadFileProxy {
    files: StringHashMap<Data>,
}

impl DownloadFileProxy {
    /// What is kept of each source that was downloaded.
    pub closed spec fn cached(&self) -> Map<Seq<char>, (u64, Seq<u8>)> {
        self.files@.map_values(|data: Data| data@)
    }

    /// A proxy that has kept nothing yet.
    pub fn new() -> (proxy: Self)
        ensures
            proxy.cached() == Map::<Seq<char>, (u64, Seq<u8>)>::empty(),
    {
        let proxy = DownloadFileProxy { files: StringHashMap::new() };
        proxy
    }
}

impl Download for DownloadFileProxy {
    /// A source that is kept is announced as a hit, with what is kept of
    /// it; another is downloaded.
    open spec fn said(self, source: Seq<char>) -> Seq<Seq<char>> {
        if self.cached().contains_key(source) {
            seq![hit_line(source, self.cached()[source])]
        } else {
            seq![download_line(source)]
        }
    }

    /// What is kept of a source is handed out as it is. Another source is
    /// downloaded, and kept from then on.
    open spec fn delivers(self, source: Seq<char>, after: Self, data: Data) -> bool {
        if self.cached().contains_key(source) {
            after.cached() == self.cached() && data@ == self.cached()[source]
        } else {
            after.cached() == self.cached().insert(source, file_data()) && data@ == file_data()
        }
    }

    fn get(&mut self, source: String, out: &mut Transcript) -> (data: Data) {
        match self.files.get(source.as_str()) {
            Some(data) => {
                let mut line = "Hit cached ".to_owned();
                line.append(source.as_str());
                line.append(" => ");
                data.append_to(&mut line);
                out.record(line);
                data.clone()
            },
            None => {
                let content = File { mime_type: "Text".to_owned() }.get(source.clone(), out);
                self.files.insert(source, content.clone());
                assert(self.cached() =~= old(self).cached().insert(source@, file_data()));
                content
            },
        }
    }
}

/// What [`demo_proxy`] puts out.
pub open spec fn demo_proxy_lines() -> Seq<Seq<char>> {
    seq![
        download_line("nextlint.com"@),
        download_line("google.com"@),
        hit_line("nextlint.com"@, file_data()),
    ]
}

/// Gets one source, then another, then the first again, through a proxy
/// that has kept nothing before.
pub fn demo_proxy(out: &mut Transcript)
    ensures
        final(out)@ == old(out)@ + demo_proxy_lines(),
{
    let mut download_proxy = DownloadFileProxy::new();
    proof {
        reveal_strlit("nextlint.com");
        reveal_strlit("google.com");
    }
    download_proxy.get("nextlint.com".to_owned(), out);
    download_proxy.get("google.com".to_owned(), out);
    download_proxy.get("nextlint.com".to_owned(), out);
}

} // verus!
