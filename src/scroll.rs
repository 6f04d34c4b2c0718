//! Cursor and scroll position of the log list, whose rows span several
//! screen lines each.
use vstd::prelude::*;

verus! {

#[derive(Debug, Clone, Copy, PartialEq, Eq, Structural)]
pub enum ScrollDirection {
    Up,
    Down,
}

/// The log list as the scrolling logic sees it.
#[derive(Debug, Clone)]
pub struct ListView {
    /// The row under the cursor.
    pub selected: usize,
    /// The first row on screen.
    pub offset: usize,
    /// How many screen lines each row takes.
    pub line_counts: Vec<usize>,
    /// Screen lines available to the list.
    pub height: u16,
    /// Rows kept between the cursor and the edge when scrolling.
    pub scroll_padding: usize,
}

/// Where the list is drawn on screen.
#[derive(Debug, Clone, Copy, PartialEq, Eq, Structural)]
pub struct Area {
    pub x: u16,
    pub y: u16,
    pub width: u16,
    pub height: u16,
}

pub open spec fn sat_add(a: int, b: int) -> int {
    if a + b > usize::MAX {
        usize::MAX as int
    } else {
        a + b
    }
}

/// The row reached by walking from `node` in `dir`, adding up screen lines
/// (`traversed` so far), until more than `dist` lines are passed or the end
/// of the list is reached.
pub open spec fn dest_node(
    counts: Seq<usize>,
    dist: int,
    node: int,
    traversed: int,
    dir: ScrollDirection,
) -> int
    decreases (if dir == ScrollDirection::Down {
        counts.len() - node
    } else {
        node
    }),
{
    let t = sat_add(traversed, counts[node] as int);
    let at_end = match dir {
        ScrollDirection::Down => node >= counts.len() - 1,
        ScrollDirection::Up => node <= 0,
    };
    if at_end || t > dist || node < 0 || node >= counts.len() {
        node
    } else {
        match dir {
            ScrollDirection::Down => dest_node(counts, dist, node + 1, t, dir),
            ScrollDirection::Up => dest_node(counts, dist, node - 1, t, dir),
        }
    }
}

proof fn lemma_dest_in_range(counts: Seq<usize>, dist: int, node: int, traversed: int, dir: ScrollDirection)
    requires
        0 <= node < counts.len(),
    ensures
        0 <= dest_node(counts, dist, node, traversed, dir) < counts.len(),
    decreases (if dir == ScrollDirection::Down {
        counts.len() - node
    } else {
        node
    }),
{
    let t = sat_add(traversed, counts[node] as int);
    let at_end = match dir {
        ScrollDirection::Down => node >= counts.len() - 1,
        ScrollDirection::Up => node <= 0,
    };
    if !(at_end || t > dist) {
        match dir {
            ScrollDirection::Down => lemma_dest_in_range(counts, dist, node + 1, t, dir),
            ScrollDirection::Up => lemma_dest_in_range(counts, dist, node - 1, t, dir),
        }
    }
}

/// The row `line_dist` screen lines away from `starting_node`, rows being
/// several lines high.
pub fn line_dist_to_dest_node(
    line_counts: &Vec<usize>,
    line_dist: usize,
    starting_node: usize,
    direction: ScrollDirection,
) -> (r: usize)
    requires
        starting_node < line_counts@.len(),
    ensures
        r == dest_node(line_counts@, line_dist as int, starting_node as int, 0, direction),
        r < line_counts@.len(),
{
    proof {
        lemma_dest_in_range(line_counts@, line_dist as int, starting_node as int, 0, direction);
    }
    let n = line_counts.len();
    let mut current_node = starting_node;
    let mut lines_traversed: usize = 0;
    loop
        invariant
            current_node < n,
            n == line_counts@.len(),
            dest_node(line_counts@, line_dist as int, starting_node as int, 0, direction) == dest_node(
                line_counts@,
                line_dist as int,
                current_node as int,
                lines_traversed as int,
                direction,
            ),
        decreases (if direction == ScrollDirection::Down {
            n - current_node
        } else {
            current_node as int
        }),
    {
        lines_traversed = lines_traversed.saturating_add(line_counts[current_node]);
        let at_end = match direction {
            ScrollDirection::Down => current_node == n - 1,
            ScrollDirection::Up => current_node == 0,
        };
        if at_end || lines_traversed > line_dist {
            return current_node;
        }
        match direction {
            ScrollDirection::Down => current_node = current_node + 1,
            ScrollDirection::Up => current_node = current_node - 1,
        }
    }
}

impl ListView {
    /// The cursor and the first row on screen are rows of a non-empty list.
    pub open spec fn wf(&self) -> bool {
        &&& self.line_counts@.len() > 0
        &&& self.selected < self.line_counts@.len()
        &&& self.offset <= self.selected
    }

    pub fn is_valid(&self) -> (r: bool)
        ensures
            r == self.wf(),
    {
        self.line_counts.len() > 0 && self.selected < self.line_counts.len() && self.offset
            <= self.selected
    }

    /// Moves the cursor one row down, stopping at the last row.
    pub fn select_next_node(&mut self)
        requires
            old(self).wf(),
        ensures
            final(self).selected == if old(self).selected + 1 < old(self).line_counts@.len() {
                old(self).selected + 1
            } else {
                old(self).selected as int
            },
            final(self).offset == old(self).offset,
            final(self).line_counts == old(self).line_counts,
            final(self).wf(),
    {
        if self.selected < self.line_counts.len() - 1 {
            self.selected = self.selected + 1;
        }
    }

    /// Moves the cursor one row up, stopping at the first row.
    pub fn select_prev_node(&mut self)
        requires
            old(self).wf(),
        ensures
            final(self).selected == if old(self).selected > 0 {
                old(self).selected - 1
            } else {
                0
            },
            final(self).offset == old(self).offset,
            final(self).line_counts == old(self).line_counts,
    {
        if self.selected > 0 {
            self.selected = self.selected - 1;
        }
    }

    /// Moves a page of `num_lines` screen lines, keeping the cursor at the
    /// same distance from the top; at the end of the list the cursor goes to
    /// the last row, at the top to the first.
    pub fn scroll_lines(&mut self, num_lines: usize, direction: ScrollDirection)
        requires
            old(self).wf(),
        ensures
            final(self).line_counts == old(self).line_counts,
            ({
                let o = *old(self);
                let dist = o.selected - o.offset;
                let target = dest_node(o.line_counts@, num_lines as int, o.offset as int, 0, direction);
                match direction {
                    ScrollDirection::Down => if target == o.line_counts@.len() - 1 {
                        final(self).selected == target && final(self).offset == o.offset
                    } else {
                        final(self).selected == sat_add(target, dist) && final(self).offset == target
                    },
                    ScrollDirection::Up => final(self).offset == target && final(self).selected == if target
                        == 0 && target == o.offset {
                        0
                    } else {
                        sat_add(target, dist)
                    },
                }
            }),
    {
        let selected_node_dist_from_offset = self.selected - self.offset;
        let mut target_offset = line_dist_to_dest_node(&self.line_counts, num_lines, self.offset, direction);
        let mut target_node = target_offset.saturating_add(selected_node_dist_from_offset);
        match direction {
            ScrollDirection::Down => {
                if target_offset == self.line_counts.len() - 1 {
                    target_node = target_offset;
                    target_offset = self.offset;
                }
            },
            ScrollDirection::Up => {
                if target_offset == 0 && target_offset == self.offset {
                    target_node = 0;
                }
            },
        }
        self.selected = target_node;
        self.offset = target_offset;
    }

    pub fn scroll_down_page(&mut self)
        requires
            old(self).wf(),
        ensures
            final(self).line_counts == old(self).line_counts,
    {
        let h = self.height as usize;
        self.scroll_lines(h, ScrollDirection::Down);
    }

    pub fn scroll_up_page(&mut self)
        requires
            old(self).wf(),
        ensures
            final(self).line_counts == old(self).line_counts,
    {
        let h = self.height as usize;
        self.scroll_lines(h, ScrollDirection::Up);
    }

    /// One line of mouse-wheel scrolling down: the cursor follows when it
    /// would leave the top of the screen.
    pub fn scroll_down_once(&mut self)
        requires
            old(self).wf(),
        ensures
            final(self).line_counts == old(self).line_counts,
            final(self).offset == sat_add(old(self).offset as int, 1),
            final(self).selected == if old(self).selected <= sat_add(
                old(self).offset as int,
                old(self).scroll_padding as int,
            ) && old(self).selected + 1 < old(self).line_counts@.len() {
                old(self).selected + 1
            } else {
                old(self).selected as int
            },
    {
        if self.selected <= self.offset.saturating_add(self.scroll_padding) {
            self.select_next_node();
        }
        self.offset = self.offset.saturating_add(1);
    }

    /// One line of mouse-wheel scrolling up: the cursor follows when it would
    /// leave the bottom of the screen.
    pub fn scroll_up_once(&mut self)
        requires
            old(self).wf(),
        ensures
            final(self).line_counts == old(self).line_counts,
            old(self).offset == 0 ==> *final(self) == *old(self),
            old(self).offset > 0 ==> final(self).offset == old(self).offset - 1,
    {
        if self.offset == 0 {
            return;
        }
        let last_node_visible = line_dist_to_dest_node(
            &self.line_counts,
            (self.height as usize).saturating_sub(1),
            self.offset,
            ScrollDirection::Down,
        );
        if self.selected >= last_node_visible.saturating_sub(1).saturating_sub(self.scroll_padding) {
            self.select_prev_node();
        }
        self.offset = self.offset - 1;
    }

    /// Selects the row under a click inside `area`; a click outside does nothing.
    pub fn handle_mouse_click(&mut self, row: u16, column: u16, area: Area)
        requires
            old(self).wf(),
        ensures
            final(self).line_counts == old(self).line_counts,
            final(self).offset == old(self).offset,
            (row < area.y || row as int >= area.y + area.height || column < area.x || column as int
                >= area.x + area.width) ==> final(self).selected == old(self).selected,
            !(row < area.y || row as int >= area.y + area.height || column < area.x || column as int
                >= area.x + area.width) ==> final(self).selected == dest_node(
                old(self).line_counts@,
                row - area.y,
                old(self).offset as int,
                0,
                ScrollDirection::Down,
            ),
    {
        let inside = row >= area.y && (row as u32) < (area.y as u32) + (area.height as u32) && column
            >= area.x && (column as u32) < (area.x as u32) + (area.width as u32);
        if !inside {
            return;
        }
        let target = line_dist_to_dest_node(
            &self.line_counts,
            (row - area.y) as usize,
            self.offset,
            ScrollDirection::Down,
        );
        self.selected = target;
    }
}

} // verus!
