use vstd::prelude::*;
use vstd::string::StringExecFns;

use crate::buffer::ScriptBuffer;
use crate::decimal::Decimal;
use crate::plot::GraphMaker;
use crate::serialize::{
    array_2d_text, is_rectangular, num_list_text, rectangular, str_list_text,
    vec_to_py_list_num, vec_to_py_list_str, vec_vec_to_numpy_array_2d,
};

verus! {

/// The colors option: present only for a non-empty color list.
pub open spec fn colors_option(colors: Seq<String>) -> Seq<char> {
    if colors.len() > 0 {
        ",colors="@ + str_list_text(colors)
    } else {
        Seq::empty()
    }
}

/// The levels option: present only for a non-empty level list.
pub open spec fn levels_option(levels: Seq<Decimal>) -> Seq<char> {
    if levels.len() > 0 {
        ",levels="@ + num_list_text(levels)
    } else {
        Seq::empty()
    }
}

/// The options clause of the drawing call.
pub open spec fn options_text(colors: Seq<String>, levels: Seq<Decimal>) -> Seq<char> {
    colors_option(colors) + levels_option(levels)
}

/// Both grids have the same number of rows, and each row the same number of entries.
pub open spec fn same_shape(a: Seq<Vec<Decimal>>, b: Seq<Vec<Decimal>>) -> bool {
    a.len() == b.len() && forall|i: int| 0 <= i < a.len() ==> (#[trigger] a[i])@.len() == b[i]@.len()
}

/// The grids that `draw_filled` accepts: three rectangular grids of one shape.
pub open spec fn valid_grids(x: Seq<Vec<Decimal>>, y: Seq<Vec<Decimal>>, z: Seq<Vec<Decimal>>) -> bool {
    same_shape(x, y) && same_shape(x, z) && is_rectangular(x)
}

/// The script of one filled contour: the three grids, then the drawing call.
pub open spec fn filled_text(
    x: Seq<Vec<Decimal>>,
    y: Seq<Vec<Decimal>>,
    z: Seq<Vec<Decimal>>,
    options: Seq<char>,
) -> Seq<char> {
    array_2d_text("x"@, x) + array_2d_text("y"@, y) + array_2d_text("z"@, z)
        + "plt.contourf(x,y,z"@ + options + ")\n"@
}

/// The options clause begins with the colors option exactly when colors are given; what
/// follows the colors option is the levels option when levels are given and nothing
/// otherwise; with neither, the clause is empty.
pub proof fn lemma_options_clause(colors: Seq<String>, levels: Seq<Decimal>)
    ensures
        ({
            let o = options_text(colors, levels);
            o.len() >= 8 && o.subrange(0, 8) == ",colors="@
        }) <==> colors.len() > 0,
        options_text(colors, levels) == colors_option(colors) + levels_option(levels),
        levels.len() > 0 ==> levels_option(levels) == ",levels="@ + num_list_text(levels),
        levels_option(levels).len() > 0 <==> levels.len() > 0,
        colors.len() == 0 && levels.len() == 0 ==> options_text(colors, levels).len() == 0,
{
    reveal_strlit(",colors=");
    reveal_strlit(",levels=");
    reveal_strlit("[");
    let o = options_text(colors, levels);
    if colors.len() > 0 {
        assert(o.subrange(0, 8) =~= ",colors="@);
    } else if levels.len() > 0 {
        assert(o.subrange(0, 8) =~= ",levels="@);
        assert(o.subrange(0, 8)[1] != ",colors="@[1]);
    }
    if levels.len() > 0 {
        assert(levels_option(levels).len() > 0);
    }
}

/// Whether the two grids have the same shape.
fn same_shape_exec(a: &[Vec<Decimal>], b: &[Vec<Decimal>]) -> (r: bool)
    ensures
        r == same_shape(a@, b@),
{
    if a.len() != b.len() {
        return false;
    }
    let mut i: usize = 0;
    while i < a.len()
        invariant
            i <= a@.len(),
            a@.len() == b@.len(),
            forall|j: int| 0 <= j < i ==> (#[trigger] a@[j])@.len() == b@[j]@.len(),
        decreases a@.len() - i,
    {
        if a[i].len() != b[i].len() {
            return false;
        }
        i = i + 1;
    }
    true
}

/// A filled contour plot.
pub struct Contour {
    /// colors
    pub colors: Vec<String>,
    /// levels (may be empty)
    pub levels: Vec<Decimal>,
    /// colormap index
    pub colormap_index: i32,
    /// number format
    pub number_format: String,
    /// no lines on top of filled contour
    pub no_lines: bool,
    /// no labels
    pub no_labels: bool,
    /// no labels 'inline'
    pub no_inline: bool,
    /// no colorbar
    pub no_colorbar: bool,
    /// colorbar label
    pub colorbar_label: String,
    /// selected value
    pub selected_value: Decimal,
    /// color to mark selected level
    pub selected_color: String,
    /// selected level linewidth
    pub selected_linewidth: Decimal,
    /// the script drawn so far
    pub buffer: ScriptBuffer,
}

impl Contour {
    pub fn new() -> (r: Contour)
        ensures
            r.buffer_text() == Seq::<char>::empty(),
            r.colors@.len() == 0,
            r.levels@.len() == 0,
            r.colormap_index == 0,
            r.number_format@.len() == 0,
            !r.no_lines,
            !r.no_labels,
            !r.no_inline,
            !r.no_colorbar,
            r.colorbar_label@.len() == 0,
            r.selected_value == Decimal::zero(),
            r.selected_color@.len() == 0,
            r.selected_linewidth == Decimal::zero(),
    {
        Contour {
            colors: Vec::new(),
            levels: Vec::new(),
            colormap_index: 0,
            number_format: String::new(),
            no_lines: false,
            no_labels: false,
            no_inline: false,
            no_colorbar: false,
            colorbar_label: String::new(),
            selected_value: Decimal::new(0, 0),
            selected_color: String::new(),
            selected_linewidth: Decimal::new(0, 0),
            buffer: ScriptBuffer::new(),
        }
    }

    /// The options clause for the current colors and levels.
    pub fn options(&self) -> (r: String)
        ensures
            r@ == options_text(self.colors@, self.levels@),
    {
        let mut opt = String::new();
        if self.colors.len() > 0 {
            opt.append(",colors=");
            opt.append(vec_to_py_list_str(self.colors.as_slice()).as_str());
        }
        if self.levels.len() > 0 {
            opt.append(",levels=");
            opt.append(vec_to_py_list_num(self.levels.as_slice()).as_str());
        }
        assert(opt@ =~= options_text(self.colors@, self.levels@));
        opt
    }

    /// Appends a filled contour of `z` over the grid `x`, `y`. The three grids must be
    /// rectangular and of one shape; otherwise nothing is appended.
    pub fn draw_filled(&mut self, x: &[Vec<Decimal>], y: &[Vec<Decimal>], z: &[Vec<Decimal>]) -> (r: Result<(), &'static str>)
        ensures
            r.is_ok() == valid_grids(x@, y@, z@),
            r.is_ok() ==> final(self).buffer_text() == old(self).buffer_text() + filled_text(
                x@,
                y@,
                z@,
                options_text(old(self).colors@, old(self).levels@),
            ),
            r.is_err() ==> final(self).buffer_text() == old(self).buffer_text(),
            final(self).colors == old(self).colors,
            final(self).levels == old(self).levels,
    {
        if !same_shape_exec(x, y) || !same_shape_exec(x, z) {
            return Err("x, y and z must have the same shape");
        }
        if !rectangular(x) {
            return Err("all rows of a grid must have the same length");
        }
        assert(is_rectangular(y@)) by {
            assert forall|i: int| 0 <= i < y@.len() implies (#[trigger] y@[i])@.len() == y@[0]@.len() by {
                assert(x@[i]@.len() == y@[i]@.len());
                assert(x@[0]@.len() == y@[0]@.len());
            }
        }
        assert(is_rectangular(z@)) by {
            assert forall|i: int| 0 <= i < z@.len() implies (#[trigger] z@[i])@.len() == z@[0]@.len() by {
                assert(x@[i]@.len() == z@[i]@.len());
                assert(x@[0]@.len() == z@[0]@.len());
            }
        }
        let opt = self.options();
        let mut frag = String::new();
        let rx = vec_vec_to_numpy_array_2d(&mut frag, "x", x);
        let ry = vec_vec_to_numpy_array_2d(&mut frag, "y", y);
        let rz = vec_vec_to_numpy_array_2d(&mut frag, "z", z);
        assert(rx.is_ok() && ry.is_ok() && rz.is_ok());
        frag.append("plt.contourf(x,y,z");
        frag.append(opt.as_str());
        frag.append(")\n");
        assert(frag@ =~= filled_text(x@, y@, z@, opt@));
        self.buffer.append(frag.as_str());
        Ok(())
    }
}

impl GraphMaker for Contour {
    open spec fn buffer_text(&self) -> Seq<char> {
        self.buffer@
    }

    fn get_buffer(&self) -> (r: &String) {
        self.buffer.as_string()
    }
}

} // verus!
