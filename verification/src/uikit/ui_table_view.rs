//! `UITableView` and `UITableViewCell`.
//!
//! The table's heights are `CGFloat`s (`f32` on the guest) that it only
//! stores, kept as their bit patterns.

use vstd::prelude::*;
use crate::guest::{
    Id, NIL, NSInteger, RefOp, release_unless_nil, retain_unless_nil, replace_retained_retain_first,
};

verus! {

// UITableViewStyle
pub type UITableViewStyle = NSInteger;
pub const UI_TABLE_VIEW_STYLE_PLAIN: UITableViewStyle = 0;
pub const UI_TABLE_VIEW_STYLE_GROUPED: UITableViewStyle = 1;

// UITableViewCellSeparatorStyle
pub type UITableViewCellSeparatorStyle = NSInteger;
pub const UI_TABLE_VIEW_CELL_SEPARATOR_STYLE_NONE: UITableViewCellSeparatorStyle = 0;
pub const UI_TABLE_VIEW_CELL_SEPARATOR_STYLE_SINGLE_LINE: UITableViewCellSeparatorStyle = 1;

/// Bit pattern of the `f32` 44.0, the default row height.
pub const ROW_HEIGHT_44_BITS: u32 = 0x42300000;

pub struct UITableViewHostObject {
    pub data_source: Id,
    pub delegate: Id,
    pub style: UITableViewStyle,
    pub separator_style: UITableViewCellSeparatorStyle,
    /// Bit pattern of the `f32` row height.
    pub row_height_bits: u32,
    /// Bit pattern of the `f32` section header height.
    pub section_header_height_bits: u32,
    /// Bit pattern of the `f32` section footer height.
    pub section_footer_height_bits: u32,
    pub allows_selection: bool,
}

impl Default for UITableViewHostObject {
    fn default() -> (h: Self)
        ensures
            h.data_source == NIL,
            h.delegate == NIL,
            h.style == UI_TABLE_VIEW_STYLE_PLAIN,
            h.separator_style == UI_TABLE_VIEW_CELL_SEPARATOR_STYLE_SINGLE_LINE,
            h.row_height_bits == ROW_HEIGHT_44_BITS,
            h.section_header_height_bits == 0,
            h.section_footer_height_bits == 0,
            h.allows_selection,
    {
        UITableViewHostObject {
            data_source: NIL,
            delegate: NIL,
            style: UI_TABLE_VIEW_STYLE_PLAIN,
            separator_style: UI_TABLE_VIEW_CELL_SEPARATOR_STYLE_SINGLE_LINE,
            row_height_bits: ROW_HEIGHT_44_BITS,
            section_header_height_bits: 0,
            section_footer_height_bits: 0,
            allows_selection: true,
        }
    }
}

impl UITableViewHostObject {
    /// `initWithFrame:style:` (the frame is the view's part).
    pub fn init_with_style(&mut self, style: UITableViewStyle)
        ensures
            *final(self) == (UITableViewHostObject { style, ..*old(self) }),
    {
        self.style = style;
    }

    /// `setDataSource:`: the new data source is retained before the old one
    /// is released.
    pub fn set_data_source(&mut self, data_source: Id) -> (ops: Vec<RefOp>)
        ensures
            *final(self) == (UITableViewHostObject { data_source, ..*old(self) }),
            ops@ == retain_unless_nil(data_source) + release_unless_nil(old(self).data_source),
    {
        replace_retained_retain_first(&mut self.data_source, data_source)
    }

    /// `setDelegate:`: the new delegate is retained before the old one is
    /// released.
    pub fn set_delegate(&mut self, delegate: Id) -> (ops: Vec<RefOp>)
        ensures
            *final(self) == (UITableViewHostObject { delegate, ..*old(self) }),
            ops@ == retain_unless_nil(delegate) + release_unless_nil(old(self).delegate),
    {
        replace_retained_retain_first(&mut self.delegate, delegate)
    }

    /// `dequeueReusableCellWithIdentifier:`: there is no reuse pool, so
    /// never a cell.
    pub fn dequeue_reusable_cell(&self, identifier: Id) -> (cell: Id)
        ensures
            cell == NIL,
    {
        NIL
    }

    /// What `dealloc` releases: data source, then delegate (nil ones
    /// skipped).
    pub fn dealloc_releases(&self) -> (ops: Vec<RefOp>)
        ensures
            ops@ == release_unless_nil(self.data_source) + release_unless_nil(self.delegate),
    {
        let mut ops: Vec<RefOp> = Vec::new();
        if self.data_source != NIL {
            ops.push(RefOp::Release(self.data_source));
        }
        if self.delegate != NIL {
            ops.push(RefOp::Release(self.delegate));
        }
        proof {
            assert(ops@ =~= release_unless_nil(self.data_source) + release_unless_nil(self.delegate));
        }
        ops
    }
}

// UITableViewCellStyle
pub type UITableViewCellStyle = NSInteger;
pub const UI_TABLE_VIEW_CELL_STYLE_DEFAULT: UITableViewCellStyle = 0;
pub const UI_TABLE_VIEW_CELL_STYLE_VALUE1: UITableViewCellStyle = 1;
pub const UI_TABLE_VIEW_CELL_STYLE_VALUE2: UITableViewCellStyle = 2;
pub const UI_TABLE_VIEW_CELL_STYLE_SUBTITLE: UITableViewCellStyle = 3;

// UITableViewCellAccessoryType
pub type UITableViewCellAccessoryType = NSInteger;
pub const UI_TABLE_VIEW_CELL_ACCESSORY_NONE: UITableViewCellAccessoryType = 0;
pub const UI_TABLE_VIEW_CELL_ACCESSORY_DISCLOSURE_INDICATOR: UITableViewCellAccessoryType = 1;
pub const UI_TABLE_VIEW_CELL_ACCESSORY_DETAIL_DISCLOSURE_BUTTON: UITableViewCellAccessoryType = 2;
pub const UI_TABLE_VIEW_CELL_ACCESSORY_CHECKMARK: UITableViewCellAccessoryType = 3;

pub struct UITableViewCellHostObject {
    pub text_label: Id,
    pub detail_text_label: Id,
    pub image_view: Id,
    pub content_view: Id,
    pub accessory_type: UITableViewCellAccessoryType,
    pub style: UITableViewCellStyle,
    pub reuse_identifier: Id,
    /// Blue (default) is 0.
    pub selection_style: NSInteger,
}

impl Default for UITableViewCellHostObject {
    fn default() -> (h: Self)
        ensures
            h.text_label == NIL,
            h.detail_text_label == NIL,
            h.image_view == NIL,
            h.content_view == NIL,
            h.accessory_type == UI_TABLE_VIEW_CELL_ACCESSORY_NONE,
            h.style == UI_TABLE_VIEW_CELL_STYLE_DEFAULT,
            h.reuse_identifier == NIL,
            h.selection_style == 0,
    {
        UITableViewCellHostObject {
            text_label: NIL,
            detail_text_label: NIL,
            image_view: NIL,
            content_view: NIL,
            accessory_type: UI_TABLE_VIEW_CELL_ACCESSORY_NONE,
            style: UI_TABLE_VIEW_CELL_STYLE_DEFAULT,
            reuse_identifier: NIL,
            selection_style: 0,
        }
    }
}

impl UITableViewCellHostObject {
    /// `initWithStyle:reuseIdentifier:`: the style and the identifier
    /// (retained unless nil). The runtime then creates the content view and
    /// text label (see `adopt_subviews`).
    pub fn init_with_style(&mut self, style: UITableViewCellStyle, reuse_identifier: Id) -> (ops: Vec<
        RefOp,
    >)
        ensures
            *final(self) == (UITableViewCellHostObject { style, reuse_identifier, ..*old(self) }),
            ops@ == retain_unless_nil(reuse_identifier),
    {
        self.style = style;
        self.reuse_identifier = reuse_identifier;
        let mut ops: Vec<RefOp> = Vec::new();
        if reuse_identifier != NIL {
            ops.push(RefOp::Retain(reuse_identifier));
        }
        proof {
            assert(ops@ =~= retain_unless_nil(reuse_identifier));
        }
        ops
    }

    /// Keeps the content view and text label the runtime created for the
    /// cell (the cell owns both).
    pub fn adopt_subviews(&mut self, content_view: Id, text_label: Id)
        ensures
            *final(self) == (UITableViewCellHostObject { content_view, text_label, ..*old(self) }),
    {
        self.content_view = content_view;
        self.text_label = text_label;
    }

    /// `setAccessoryType:`.
    pub fn set_accessory_type(&mut self, accessory_type: UITableViewCellAccessoryType)
        ensures
            *final(self) == (UITableViewCellHostObject { accessory_type, ..*old(self) }),
    {
        self.accessory_type = accessory_type;
    }

    /// What `dealloc` releases: text label, detail text label, image view,
    /// content view, reuse identifier (nil ones skipped).
    pub fn dealloc_releases(&self) -> (ops: Vec<RefOp>)
        ensures
            ops@ == release_unless_nil(self.text_label) + release_unless_nil(self.detail_text_label)
                + release_unless_nil(self.image_view) + release_unless_nil(self.content_view)
                + release_unless_nil(self.reuse_identifier),
    {
        let mut ops: Vec<RefOp> = Vec::new();
        if self.text_label != NIL {
            ops.push(RefOp::Release(self.text_label));
        }
        if self.detail_text_label != NIL {
            ops.push(RefOp::Release(self.detail_text_label));
        }
        if self.image_view != NIL {
            ops.push(RefOp::Release(self.image_view));
        }
        if self.content_view != NIL {
            ops.push(RefOp::Release(self.content_view));
        }
        if self.reuse_identifier != NIL {
            ops.push(RefOp::Release(self.reuse_identifier));
        }
        proof {
            assert(ops@ =~= release_unless_nil(self.text_label) + release_unless_nil(
                self.detail_text_label,
            ) + release_unless_nil(self.image_view) + release_unless_nil(self.content_view)
                + release_unless_nil(self.reuse_identifier));
        }
        ops
    }
}

} // verus!
