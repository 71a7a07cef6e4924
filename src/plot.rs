use vstd::prelude::*;
use vstd::string::StringExecFns;

use crate::decimal::{push_int, int_text, Decimal};

verus! {

/// A drawable element that accumulates its own script text.
pub trait GraphMaker {
    /// The element's script text so far.
    spec fn buffer_text(&self) -> Seq<char>;

    fn get_buffer(&self) -> (r: &String)
        ensures
            r@ == self.buffer_text(),
    ;
}

/// Adding element `a` and then element `b` leaves their scripts side by side and whole in the
/// figure, whatever was appended before or after them.
pub proof fn lemma_add_in_sequence(before: Seq<char>, a: Seq<char>, b: Seq<char>, after: Seq<char>)
    ensures
        after_add(after_add(before, a), b) == before + (a + b),
        ({
            let all = after_add(after_add(before, a), b) + after;
            all.subrange(before.len() as int, (before.len() + a.len() + b.len()) as int) == a + b
        }),
{
    assert(after_add(after_add(before, a), b) =~= before + (a + b));
    let all = after_add(after_add(before, a), b) + after;
    assert(all.subrange(before.len() as int, (before.len() + a.len() + b.len()) as int) =~= a + b);
}

/// A figure's script after an element's whole script has been appended to it.
pub open spec fn after_add(figure: Seq<char>, element: Seq<char>) -> Seq<char> {
    figure + element
}

pub open spec fn subplot_stmt(row: int, col: int, index: int) -> Seq<char> {
    "\nplt.subplot("@ + int_text(row) + ","@ + int_text(col) + ","@ + int_text(index) + ")\n"@
}

pub open spec fn hspace_stmt(value: Decimal) -> Seq<char> {
    "plt.subplots_adjust(hspace="@ + value.text() + ")\n"@
}

pub open spec fn wspace_stmt(value: Decimal) -> Seq<char> {
    "plt.subplots_adjust(wspace="@ + value.text() + ")\n"@
}

pub open spec fn gap_stmt(horizontal: Decimal, vertical: Decimal) -> Seq<char> {
    "plt.subplots_adjust(hspace="@ + horizontal.text() + ",wspace="@ + vertical.text() + ")\n"@
}

/// Sets the axis limits; each `None` keeps the current limit.
pub open spec fn axis_stmt(
    xmin: Option<Decimal>,
    xmax: Option<Decimal>,
    ymin: Option<Decimal>,
    ymax: Option<Decimal>,
) -> Seq<char> {
    "plt.axis(["@ + limit_text(xmin, 0) + ","@ + limit_text(xmax, 1) + ","@ + limit_text(ymin, 2)
        + ","@ + limit_text(ymax, 3) + "])\n"@
}

/// A given limit, or the current limit at `slot`.
pub open spec fn limit_text(v: Option<Decimal>, slot: int) -> Seq<char> {
    match v {
        Some(d) => d.text(),
        None => "plt.axis()["@ + int_text(slot) + "]"@,
    }
}

pub open spec fn nticks_stmt(axis: Seq<char>, num: int) -> Seq<char> {
    if num == 0 {
        "plt.gca().get_"@ + axis + "axis().set_ticks([])\n"@
    } else {
        "plt.gca().get_"@ + axis + "axis().set_major_locator(tck.MaxNLocator("@ + int_text(num)
            + "))\n"@
    }
}

pub open spec fn xlabel_stmt(label: Seq<char>) -> Seq<char> {
    "plt.xlabel(r'"@ + label + "')\n"@
}

pub open spec fn ylabel_stmt(label: Seq<char>) -> Seq<char> {
    "plt.ylabel(r'"@ + label + "')\n"@
}

pub open spec fn grid_stmt() -> Seq<char> {
    "plt.grid(linestyle='--',color='grey',zorder=-1000)\n"@
}

/// The trailing statements that write the figure to `path`.
pub open spec fn savefig_stmt(path: Seq<char>) -> Seq<char> {
    "\nfn='"@ + path
        + "'\nplt.savefig(fn, bbox_inches='tight', bbox_extra_artists=EXTRA_ARTISTS)\n"@
}

/// What a run of the renderer came to.
pub enum RenderOutcome {
    /// The renderer printed nothing: the figure was written.
    Success,
    /// The renderer printed diagnostics, kept here for the log file.
    Failure { log: String },
}

/// Why saving a figure failed.
#[derive(Clone, Copy, Debug, PartialEq, Eq)]
pub enum SaveError {
    /// A file could not be created or written.
    Io { message: &'static str },
    /// The renderer reported a problem; its diagnostics are in the log file.
    RendererFailed,
}

impl SaveError {
    pub fn message(&self) -> (r: &'static str)
        ensures
            self matches SaveError::Io { message } ==> r == message,
            self matches SaveError::RendererFailed ==> r@ == "python3 failed; please see the log file"@,
    {
        match self {
            SaveError::Io { message } => message,
            SaveError::RendererFailed => "python3 failed; please see the log file",
        }
    }
}

/// Reads the renderer's output: no output at all is success, anything else is a failure
/// whose text goes to the log.
pub fn judge_renderer_output(output: String) -> (r: RenderOutcome)
    ensures
        output@.len() == 0 <==> r matches RenderOutcome::Success,
        r matches RenderOutcome::Failure { log } ==> log@ == output@,
{
    if output.as_str().is_empty() {
        RenderOutcome::Success
    } else {
        RenderOutcome::Failure { log: output }
    }
}

/// Appends a given limit, or the current limit at `slot`.
fn push_limit(buf: &mut String, v: Option<Decimal>, slot: i64)
    requires
        0 <= slot < 4,
    ensures
        final(buf)@ == old(buf)@ + limit_text(v, slot as int),
{
    match v {
        Some(d) => d.write_to(buf),
        None => {
            buf.append("plt.axis()[");
            push_int(buf, slot);
            buf.append("]");
            assert(buf@ =~= old(buf)@ + limit_text(v, slot as int));
        },
    }
}

/// A figure: figure-wide directives and the scripts of its elements, in call order.
pub struct Plot {
    buffer: String,
}

impl Plot {
    /// The figure's script so far.
    pub closed spec fn buffer_text(&self) -> Seq<char> {
        self.buffer@
    }

    pub fn new() -> (r: Plot)
        ensures
            r.buffer_text() == Seq::<char>::empty(),
    {
        Plot { buffer: String::new() }
    }

    /// The figure's script so far.
    pub fn buffer(&self) -> (r: &String)
        ensures
            r@ == self.buffer_text(),
    {
        &self.buffer
    }

    /// Appends an element's whole script.
    pub fn add<G: GraphMaker>(&mut self, graph: &G)
        ensures
            final(self).buffer_text() == after_add(old(self).buffer_text(), graph.buffer_text()),
    {
        self.buffer.append(graph.get_buffer().as_str());
    }

    /// The complete script that writes the figure to `figure_path`; the figure is unchanged.
    pub fn save_script(&self, figure_path: &str) -> (r: String)
        ensures
            r@ == self.buffer_text() + savefig_stmt(figure_path@),
    {
        let mut s = self.buffer.clone();
        s.append("\nfn='");
        s.append(figure_path);
        s.append("'\nplt.savefig(fn, bbox_inches='tight', bbox_extra_artists=EXTRA_ARTISTS)\n");
        assert(s@ =~= self.buffer_text() + savefig_stmt(figure_path@));
        s
    }

    /// Places the next drawing in cell `index` of a `row` by `col` grid.
    pub fn subplot(&mut self, row: i32, col: i32, index: i32)
        ensures
            final(self).buffer_text() == old(self).buffer_text() + subplot_stmt(
                row as int,
                col as int,
                index as int,
            ),
    {
        self.buffer.append("\nplt.subplot(");
        push_int(&mut self.buffer, row as i64);
        self.buffer.append(",");
        push_int(&mut self.buffer, col as i64);
        self.buffer.append(",");
        push_int(&mut self.buffer, index as i64);
        self.buffer.append(")\n");
        assert(self.buffer@ =~= old(self).buffer@ + subplot_stmt(row as int, col as int, index as int));
    }

    /// Sets the horizontal gap between subplots.
    pub fn subplot_horizontal_gap(&mut self, value: Decimal)
        ensures
            final(self).buffer_text() == old(self).buffer_text() + hspace_stmt(value),
    {
        self.buffer.append("plt.subplots_adjust(hspace=");
        value.write_to(&mut self.buffer);
        self.buffer.append(")\n");
        assert(self.buffer@ =~= old(self).buffer@ + hspace_stmt(value));
    }

    /// Sets the vertical gap between subplots.
    pub fn subplot_vertical_gap(&mut self, value: Decimal)
        ensures
            final(self).buffer_text() == old(self).buffer_text() + wspace_stmt(value),
    {
        self.buffer.append("plt.subplots_adjust(wspace=");
        value.write_to(&mut self.buffer);
        self.buffer.append(")\n");
        assert(self.buffer@ =~= old(self).buffer@ + wspace_stmt(value));
    }

    /// Sets both gaps between subplots.
    pub fn subplot_gap(&mut self, horizontal: Decimal, vertical: Decimal)
        ensures
            final(self).buffer_text() == old(self).buffer_text() + gap_stmt(horizontal, vertical),
    {
        self.buffer.append("plt.subplots_adjust(hspace=");
        horizontal.write_to(&mut self.buffer);
        self.buffer.append(",wspace=");
        vertical.write_to(&mut self.buffer);
        self.buffer.append(")\n");
        assert(self.buffer@ =~= old(self).buffer@ + gap_stmt(horizontal, vertical));
    }

    /// Gives both axes the same scale.
    pub fn equal(&mut self)
        ensures
            final(self).buffer_text() == old(self).buffer_text() + "plt.axis('equal')\n"@,
    {
        self.buffer.append("plt.axis('equal')\n");
    }

    /// Hides the axes.
    pub fn hide_axes(&mut self)
        ensures
            final(self).buffer_text() == old(self).buffer_text() + "plt.axis('off')\n"@,
    {
        self.buffer.append("plt.axis('off')\n");
    }

    fn push_axis(
        &mut self,
        xmin: Option<Decimal>,
        xmax: Option<Decimal>,
        ymin: Option<Decimal>,
        ymax: Option<Decimal>,
    )
        ensures
            final(self).buffer_text() == old(self).buffer_text() + axis_stmt(xmin, xmax, ymin, ymax),
    {
        self.buffer.append("plt.axis([");
        push_limit(&mut self.buffer, xmin, 0);
        self.buffer.append(",");
        push_limit(&mut self.buffer, xmax, 1);
        self.buffer.append(",");
        push_limit(&mut self.buffer, ymin, 2);
        self.buffer.append(",");
        push_limit(&mut self.buffer, ymax, 3);
        self.buffer.append("])\n");
        assert(self.buffer@ =~= old(self).buffer@ + axis_stmt(xmin, xmax, ymin, ymax));
    }

    /// Sets all four axis limits.
    pub fn range(&mut self, xmin: Decimal, xmax: Decimal, ymin: Decimal, ymax: Decimal)
        ensures
            final(self).buffer_text() == old(self).buffer_text() + axis_stmt(
                Some(xmin),
                Some(xmax),
                Some(ymin),
                Some(ymax),
            ),
    {
        self.push_axis(Some(xmin), Some(xmax), Some(ymin), Some(ymax));
    }

    /// Sets all four axis limits from `[xmin, xmax, ymin, ymax]`.
    pub fn range_vec(&mut self, lims: &[Decimal])
        requires
            lims@.len() >= 4,
        ensures
            final(self).buffer_text() == old(self).buffer_text() + axis_stmt(
                Some(lims@[0]),
                Some(lims@[1]),
                Some(lims@[2]),
                Some(lims@[3]),
            ),
    {
        self.push_axis(Some(lims[0]), Some(lims[1]), Some(lims[2]), Some(lims[3]));
    }

    /// Sets the lower x limit.
    pub fn xmin(&mut self, xmin: Decimal)
        ensures
            final(self).buffer_text() == old(self).buffer_text() + axis_stmt(Some(xmin), None, None, None),
    {
        self.push_axis(Some(xmin), None, None, None);
    }

    /// Sets the upper x limit.
    pub fn xmax(&mut self, xmax: Decimal)
        ensures
            final(self).buffer_text() == old(self).buffer_text() + axis_stmt(None, Some(xmax), None, None),
    {
        self.push_axis(None, Some(xmax), None, None);
    }

    /// Sets the lower y limit.
    pub fn ymin(&mut self, ymin: Decimal)
        ensures
            final(self).buffer_text() == old(self).buffer_text() + axis_stmt(None, None, Some(ymin), None),
    {
        self.push_axis(None, None, Some(ymin), None);
    }

    /// Sets the upper y limit.
    pub fn ymax(&mut self, ymax: Decimal)
        ensures
            final(self).buffer_text() == old(self).buffer_text() + axis_stmt(None, None, None, Some(ymax)),
    {
        self.push_axis(None, None, None, Some(ymax));
    }

    /// Sets both x limits.
    pub fn xrange(&mut self, xmin: Decimal, xmax: Decimal)
        ensures
            final(self).buffer_text() == old(self).buffer_text() + axis_stmt(Some(xmin), Some(xmax), None, None),
    {
        self.push_axis(Some(xmin), Some(xmax), None, None);
    }

    /// Sets both y limits.
    pub fn yrange(&mut self, ymin: Decimal, ymax: Decimal)
        ensures
            final(self).buffer_text() == old(self).buffer_text() + axis_stmt(None, None, Some(ymin), Some(ymax)),
    {
        self.push_axis(None, None, Some(ymin), Some(ymax));
    }

    fn push_nticks(&mut self, axis: &str, num: i32)
        ensures
            final(self).buffer_text() == old(self).buffer_text() + nticks_stmt(axis@, num as int),
    {
        self.buffer.append("plt.gca().get_");
        self.buffer.append(axis);
        if num == 0 {
            self.buffer.append("axis().set_ticks([])\n");
        } else {
            self.buffer.append("axis().set_major_locator(tck.MaxNLocator(");
            push_int(&mut self.buffer, num as i64);
            self.buffer.append("))\n");
        }
        assert(self.buffer@ =~= old(self).buffer@ + nticks_stmt(axis@, num as int));
    }

    /// Sets the number of ticks along x; zero removes them.
    pub fn xnticks(&mut self, num: i32)
        ensures
            final(self).buffer_text() == old(self).buffer_text() + nticks_stmt("x"@, num as int),
    {
        self.push_nticks("x", num);
    }

    /// Sets the number of ticks along y; zero removes them.
    pub fn ynticks(&mut self, num: i32)
        ensures
            final(self).buffer_text() == old(self).buffer_text() + nticks_stmt("y"@, num as int),
    {
        self.push_nticks("y", num);
    }

    /// Labels the x axis.
    pub fn xlabel(&mut self, label: &str)
        ensures
            final(self).buffer_text() == old(self).buffer_text() + xlabel_stmt(label@),
    {
        self.buffer.append("plt.xlabel(r'");
        self.buffer.append(label);
        self.buffer.append("')\n");
        assert(self.buffer@ =~= old(self).buffer@ + xlabel_stmt(label@));
    }

    /// Labels the y axis.
    pub fn ylabel(&mut self, label: &str)
        ensures
            final(self).buffer_text() == old(self).buffer_text() + ylabel_stmt(label@),
    {
        self.buffer.append("plt.ylabel(r'");
        self.buffer.append(label);
        self.buffer.append("')\n");
        assert(self.buffer@ =~= old(self).buffer@ + ylabel_stmt(label@));
    }

    /// Labels both axes.
    pub fn labels(&mut self, xlabel: &str, ylabel: &str)
        ensures
            final(self).buffer_text() == old(self).buffer_text() + xlabel_stmt(xlabel@) + ylabel_stmt(ylabel@),
    {
        self.xlabel(xlabel);
        self.ylabel(ylabel);
    }

    /// Draws a grid and labels both axes.
    pub fn grid_and_labels(&mut self, xlabel: &str, ylabel: &str)
        ensures
            final(self).buffer_text() == old(self).buffer_text() + grid_stmt() + xlabel_stmt(xlabel@)
                + ylabel_stmt(ylabel@),
    {
        self.buffer.append("plt.grid(linestyle='--',color='grey',zorder=-1000)\n");
        self.labels(xlabel, ylabel);
    }

    /// Clears the current figure.
    pub fn clear_current_figure(&mut self)
        ensures
            final(self).buffer_text() == old(self).buffer_text() + "plt.clf()\n"@,
    {
        self.buffer.append("plt.clf()\n");
    }
}

} // verus!
