use vstd::prelude::*;
use vstd::string::*;

verus! {

/// The standard headers and the header files named by the interface that an
/// artifact needs at its top.
#[derive(Debug)]
pub struct Includes {
    pub custom: Vec<String>,
    pub array: bool,
    pub cstdint: bool,
    pub cstring: bool,
    pub exception: bool,
    pub memory: bool,
    pub string: bool,
    pub type_traits: bool,
    pub utility: bool,
    pub vector: bool,
}

/// The mathematical value of [`Includes`].
pub struct IncludesView {
    pub custom: Seq<Seq<char>>,
    pub array: bool,
    pub cstdint: bool,
    pub cstring: bool,
    pub exception: bool,
    pub memory: bool,
    pub string: bool,
    pub type_traits: bool,
    pub utility: bool,
    pub vector: bool,
}

impl View for Includes {
    type V = IncludesView;

    open spec fn view(&self) -> IncludesView {
        IncludesView {
            custom: self.custom@.map_values(|c: String| c@),
            array: self.array,
            cstdint: self.cstdint,
            cstring: self.cstring,
            exception: self.exception,
            memory: self.memory,
            string: self.string,
            type_traits: self.type_traits,
            utility: self.utility,
            vector: self.vector,
        }
    }
}

/// The mathematical value of an artifact under construction: the text written
/// so far, whether a blank line is owed before the next text, and the blocks
/// opened but not yet written out.
pub struct OutState {
    pub content: Seq<char>,
    pub section_pending: bool,
    pub blocks: Seq<Seq<char>>,
}

/// The lines that open `blocks`, in order.
pub open spec fn blocks_open(blocks: Seq<Seq<char>>) -> Seq<char>
    decreases blocks.len(),
{
    if blocks.len() == 0 {
        Seq::empty()
    } else {
        blocks_open(blocks.drop_last()) + blocks.last() + " {\n"@
    }
}

/// A blank line where some text came before.
pub open spec fn separator(content: Seq<char>) -> Seq<char> {
    if content.len() > 0 {
        "\n"@
    } else {
        Seq::empty()
    }
}

/// The state after writing `s`: empty text changes nothing; other text first
/// opens the pending blocks, or else puts the owed blank line.
pub open spec fn put(st: OutState, s: Seq<char>) -> OutState {
    if s.len() == 0 {
        st
    } else if st.blocks.len() > 0 {
        OutState {
            content: st.content + separator(st.content) + blocks_open(st.blocks) + s,
            section_pending: false,
            blocks: Seq::empty(),
        }
    } else if st.section_pending {
        OutState {
            content: st.content + separator(st.content) + s,
            section_pending: false,
            blocks: st.blocks,
        }
    } else {
        OutState { content: st.content + s, section_pending: false, blocks: st.blocks }
    }
}

/// An artifact under construction: an append-only text in sections, inside
/// the namespaces of the interface.
pub struct OutFile {
    pub namespace: Vec<String>,
    pub header: bool,
    pub includes: Includes,
    pub content: String,
    pub section_pending: bool,
    pub blocks_pending: Vec<String>,
}

impl View for OutFile {
    type V = OutState;

    open spec fn view(&self) -> OutState {
        OutState {
            content: self.content@,
            section_pending: self.section_pending,
            blocks: self.blocks_pending@.map_values(|b: String| b@),
        }
    }
}

impl Includes {
    /// No header needed yet.
    pub fn new() -> (r: Includes)
        ensures
            r.custom@.len() == 0,
            !r.array && !r.cstdint && !r.cstring && !r.exception && !r.memory,
            !r.string && !r.type_traits && !r.utility && !r.vector,
    {
        Includes {
            custom: Vec::new(),
            array: false,
            cstdint: false,
            cstring: false,
            exception: false,
            memory: false,
            string: false,
            type_traits: false,
            utility: false,
            vector: false,
        }
    }

    /// Adds a header file that the interface names.
    pub fn insert(&mut self, path: String)
        ensures
            final(self).custom@ == old(self).custom@.push(path),
            final(self).array == old(self).array,
            final(self).cstdint == old(self).cstdint,
            final(self).cstring == old(self).cstring,
            final(self).exception == old(self).exception,
            final(self).memory == old(self).memory,
            final(self).string == old(self).string,
            final(self).type_traits == old(self).type_traits,
            final(self).utility == old(self).utility,
            final(self).vector == old(self).vector,
    {
        self.custom.push(path);
    }
}

impl OutFile {
    /// An empty artifact for the given namespace; `header` tells a
    /// declaration artifact from a definition artifact.
    pub fn new(namespace: Vec<String>, header: bool) -> (r: OutFile)
        ensures
            r@ == (OutState { content: Seq::empty(), section_pending: false, blocks: Seq::empty() }),
            r.namespace@ == namespace@,
            r.header == header,
            r.includes.custom@.len() == 0,
            !r.includes.array && !r.includes.cstdint && !r.includes.cstring,
            !r.includes.exception && !r.includes.memory && !r.includes.string,
            !r.includes.type_traits && !r.includes.utility && !r.includes.vector,
    {
        let r = OutFile {
            namespace,
            header,
            includes: Includes::new(),
            content: String::new(),
            section_pending: false,
            blocks_pending: Vec::new(),
        };
        assert(r@.blocks =~= Seq::empty());
        r
    }

    /// The text written so far.
    pub fn content(&self) -> (r: &String)
        ensures
            r@ == self@.content,
    {
        &self.content
    }

    /// Asks for a blank line before the next text.
    pub fn next_section(&mut self)
        ensures
            final(self)@ == next_section_state(old(self)@),
            final(self).namespace == old(self).namespace,
            final(self).header == old(self).header,
            final(self).includes == old(self).includes,
    {
        self.section_pending = true;
    }

    /// Opens a block; its first line is written only once text follows.
    pub fn begin_block(&mut self, block: &str)
        ensures
            final(self)@ == begin_block_state(old(self)@, block@),
            final(self).namespace == old(self).namespace,
            final(self).header == old(self).header,
            final(self).includes == old(self).includes,
    {
        self.blocks_pending.push(block.to_owned());
        assert(self@.blocks =~= old(self)@.blocks.push(block@));
    }

    /// Closes a block: an empty one leaves no trace, else its closing line is
    /// written and a blank line is owed.
    pub fn end_block(&mut self, block: &str)
        ensures
            final(self)@ == end_block_state(old(self)@, block@),
            final(self).namespace == old(self).namespace,
            final(self).header == old(self).header,
            final(self).includes == old(self).includes,
    {
        if self.blocks_pending.len() > 0 {
            self.blocks_pending.pop();
            assert(self@.blocks =~= old(self)@.blocks.drop_last());
        } else {
            self.content.append("} // ");
            self.content.append(block);
            self.content.append("\n");
            self.section_pending = true;
        }
    }

    /// Writes text, opening pending blocks or putting the owed blank line first.
    pub fn write(&mut self, s: &str)
        ensures
            final(self)@ == put(old(self)@, s@),
            final(self).namespace == old(self).namespace,
            final(self).header == old(self).header,
            final(self).includes == old(self).includes,
    {
        if s.is_empty() {
            return;
        }
        if self.blocks_pending.len() > 0 {
            if !self.content.as_str().is_empty() {
                self.content.append("\n");
            }
            let ghost start = self.content@;
            let mut i: usize = 0;
            while i < self.blocks_pending.len()
                invariant
                    i <= self.blocks_pending@.len(),
                    self.blocks_pending@ == old(self).blocks_pending@,
                    self.namespace == old(self).namespace,
                    self.header == old(self).header,
                    self.includes == old(self).includes,
                    start == old(self)@.content + separator(old(self)@.content),
                    self.content@ == start + blocks_open(
                        old(self)@.blocks.subrange(0, i as int),
                    ),
                decreases self.blocks_pending@.len() - i,
            {
                self.content.append(self.blocks_pending[i].as_str());
                self.content.append(" {\n");
                let ghost bs = old(self)@.blocks;
                assert(bs.subrange(0, i + 1).drop_last() =~= bs.subrange(0, i as int));
                assert(start + blocks_open(bs.subrange(0, i + 1)) =~= start + blocks_open(
                    bs.subrange(0, i as int),
                ) + bs[i as int] + " {\n"@);
                i = i + 1;
            }
            assert(old(self)@.blocks.subrange(0, i as int) =~= old(self)@.blocks);
            self.blocks_pending.clear();
            self.section_pending = false;
        } else if self.section_pending {
            if !self.content.as_str().is_empty() {
                self.content.append("\n");
            }
            self.section_pending = false;
        }
        self.content.append(s);
        assert(self@.blocks =~= put(old(self)@, s@).blocks);
        assert(self@.content =~= put(old(self)@, s@).content);
    }

    /// Puts text in front of everything written so far.
    pub fn prepend(&mut self, section: String)
        ensures
            final(self)@ == (OutState { content: section@ + old(self)@.content, ..old(self)@ }),
            final(self).namespace == old(self).namespace,
            final(self).header == old(self).header,
            final(self).includes == old(self).includes,
    {
        let mut s = section;
        s.append(self.content.as_str());
        self.content = s;
    }
}

/// Whether two artifacts agree on all but their text.
pub open spec fn keeps_frame(a: OutFile, b: OutFile) -> bool {
    &&& a.namespace@ == b.namespace@
    &&& a.header == b.header
    &&& a.includes@ == b.includes@
}

/// The state after asking for a blank line.
pub open spec fn next_section_state(st: OutState) -> OutState {
    OutState { section_pending: true, ..st }
}

/// The state after opening a block.
pub open spec fn begin_block_state(st: OutState, block: Seq<char>) -> OutState {
    OutState { blocks: st.blocks.push(block), ..st }
}

/// The state after closing a block: an empty one leaves no trace, else its
/// closing line is written and a blank line is owed.
pub open spec fn end_block_state(st: OutState, block: Seq<char>) -> OutState {
    if st.blocks.len() > 0 {
        OutState { blocks: st.blocks.drop_last(), ..st }
    } else {
        OutState {
            content: st.content + "} // "@ + block + "\n"@,
            section_pending: true,
            blocks: st.blocks,
        }
    }
}

} // verus!
