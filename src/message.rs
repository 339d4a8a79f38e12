//! The block-based chat message and the operations that build it.

use vstd::prelude::*;

verus! {

pub const MESSAGE_TYPE: &'static str = "home";
pub const HEADER_TYPE: &'static str = "header";
pub const SECTION_TYPE: &'static str = "section";
pub const PLAIN_TEXT_TYPE: &'static str = "plain_text";
pub const MARKDOWN_TYPE: &'static str = "mrkdwn";

/// What the text of a block is: its kind and its characters.
pub struct BlockTextView {
    pub text_type: Seq<char>,
    pub text: Seq<char>,
}

/// What a block is.
pub struct BlockView {
    pub block_type: Seq<char>,
    pub text: Option<BlockTextView>,
}

/// What a message is: its kind and its blocks in order.
pub struct MessageView {
    pub blocks_type: Seq<char>,
    pub blocks: Seq<BlockView>,
}

/// A header block: plain text shown as a title.
pub open spec fn header_block(text: Seq<char>) -> BlockView {
    BlockView {
        block_type: HEADER_TYPE@,
        text: Some(BlockTextView { text_type: PLAIN_TEXT_TYPE@, text }),
    }
}

/// A section block: markdown text.
pub open spec fn section_block(text: Seq<char>) -> BlockView {
    BlockView {
        block_type: SECTION_TYPE@,
        text: Some(BlockTextView { text_type: MARKDOWN_TYPE@, text }),
    }
}

#[derive(Debug, PartialEq, Eq)]
pub struct SlackMessageBlockText {
    pub text_type: String,
    pub text: String,
}

#[derive(Debug)]
pub struct SlackMessageBlock {
    pub block_type: String,
    pub text: Option<SlackMessageBlockText>,
}

/// A message: its kind and its blocks, appended one at a time.
#[derive(Debug)]
pub struct SlackMessageBlocks {
    pub blocks_type: String,
    pub blocks: Vec<SlackMessageBlock>,
}

impl View for SlackMessageBlockText {
    type V = BlockTextView;

    open spec fn view(&self) -> BlockTextView {
        BlockTextView { text_type: self.text_type@, text: self.text@ }
    }
}

impl View for SlackMessageBlock {
    type V = BlockView;

    open spec fn view(&self) -> BlockView {
        BlockView {
            block_type: self.block_type@,
            text: match self.text {
                Some(t) => Some(t@),
                None => None,
            },
        }
    }
}

impl View for SlackMessageBlocks {
    type V = MessageView;

    open spec fn view(&self) -> MessageView {
        MessageView {
            blocks_type: self.blocks_type@,
            blocks: self.blocks@.map_values(|b: SlackMessageBlock| b@),
        }
    }
}

impl Default for SlackMessageBlocks {
    fn default() -> (r: SlackMessageBlocks)
        ensures
            r@ == (MessageView { blocks_type: MESSAGE_TYPE@, blocks: Seq::empty() }),
    {
        Self::new()
    }
}

impl SlackMessageBlocks {
    /// An empty message of kind `home`.
    pub fn new() -> (r: SlackMessageBlocks)
        ensures
            r@ == (MessageView { blocks_type: MESSAGE_TYPE@, blocks: Seq::empty() }),
    {
        let r = SlackMessageBlocks { blocks_type: String::from_str(MESSAGE_TYPE), blocks: Vec::new() };
        assert(r@.blocks =~= Seq::empty());
        r
    }

    /// Appends one block at the end.
    pub fn add_block(&mut self, block: SlackMessageBlock)
        ensures
            final(self)@ == (MessageView {
                blocks_type: old(self)@.blocks_type,
                blocks: old(self)@.blocks.push(block@),
            }),
    {
        self.blocks.push(block);
        assert(self@.blocks =~= old(self)@.blocks.push(block@));
    }

    /// Appends a header block holding `text` as plain text.
    pub fn add_header_block(&mut self, text: String)
        ensures
            final(self)@ == (MessageView {
                blocks_type: old(self)@.blocks_type,
                blocks: old(self)@.blocks.push(header_block(text@)),
            }),
    {
        let block = SlackMessageBlock {
            block_type: String::from_str(HEADER_TYPE),
            text: Some(SlackMessageBlockText { text_type: String::from_str(PLAIN_TEXT_TYPE), text }),
        };
        self.add_block(block);
    }

    /// Appends a section block holding `text` as markdown.
    pub fn add_text_block(&mut self, text: String)
        ensures
            final(self)@ == (MessageView {
                blocks_type: old(self)@.blocks_type,
                blocks: old(self)@.blocks.push(section_block(text@)),
            }),
    {
        let block = SlackMessageBlock {
            block_type: String::from_str(SECTION_TYPE),
            text: Some(SlackMessageBlockText { text_type: String::from_str(MARKDOWN_TYPE), text }),
        };
        self.add_block(block);
    }
}

} // verus!
