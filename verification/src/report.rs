//! The report driver: the request echo, the current-condition block, and
//! one table per requested forecast day.

use vstd::prelude::*;
use crate::condition::{WeatherCondition, CELL_WIDTH};
use crate::day::{Weather, day_block_ok};
use crate::width::{visible_width, well_styled};

verus! {

/// The echo of the queried location.
pub struct Request {
    pub query: String,
}

/// The decoded weather document.
pub struct Data {
    pub current_condition: Vec<WeatherCondition>,
    pub request: Vec<Request>,
    pub weather: Vec<Weather>,
}

/// The document as delivered, one level of wrapping around the data.
pub struct DataWrapper {
    pub data: Data,
}

/// The configuration the renderer is given once at startup.
pub struct Config {
    pub use_zh: bool,
    pub days: usize,
}

impl Data {
    /// What the decoder guarantees of a whole document.
    pub open spec fn wf(&self) -> bool {
        &&& self.current_condition@.len() > 0
        &&& self.current_condition@[0].wf()
        &&& self.request@.len() > 0
        &&& forall|i: int| 0 <= i < self.weather@.len() ==> (#[trigger] self.weather@[i]).wf()
    }
}

/// How many day tables the report shows: the requested number, capped by
/// the days available.
pub open spec fn shown_days(data: Data, cfg: Config) -> int {
    if cfg.days <= data.weather@.len() {
        cfg.days as int
    } else {
        data.weather@.len() as int
    }
}

/// Render the whole report as printable lines: the request echo and two
/// blank lines, the five current-condition cells, then a ten-line table
/// for each shown day.
pub fn render_report(data: &Data, cfg: &Config) -> (r: Vec<String>)
    requires
        data.wf(),
    ensures
        r@.len() == 8 + 10 * shown_days(*data, *cfg),
        r@[0]@ == "Weather for: "@ + data.request@[0].query@,
        r@[1]@.len() == 0,
        r@[2]@.len() == 0,
        forall|j: int| 0 <= j < 5 ==> (#[trigger] r@[3 + j]@)
            == data.current_condition@[0].cell_spec(cfg.use_zh, j),
        forall|j: int|
            0 <= j < 5 ==> visible_width(#[trigger] r@[3 + j]@) == CELL_WIDTH as int
                && well_styled(r@[3 + j]@),
        forall|k: int|
            0 <= k < shown_days(*data, *cfg) ==> day_block_ok(
                #[trigger] r@.subrange(8 + 10 * k, 18 + 10 * k),
                cfg.use_zh,
                data.weather@[k],
            ),
{
    let mut r: Vec<String> = Vec::new();
    let mut head = String::from_str("Weather for: ");
    head.append(data.request[0].query.as_str());
    r.push(head);
    r.push(String::new());
    r.push(String::new());
    let cells = data.current_condition[0].format(cfg.use_zh);
    r.push(cells[0].clone());
    r.push(cells[1].clone());
    r.push(cells[2].clone());
    r.push(cells[3].clone());
    r.push(cells[4].clone());
    let n = data.weather.len();
    let limit = if cfg.days <= n {
        cfg.days
    } else {
        n
    };
    let mut k: usize = 0;
    while k < limit
        invariant
            data.wf(),
            limit as int == shown_days(*data, *cfg),
            limit <= data.weather@.len(),
            k <= limit,
            r@.len() == 8 + 10 * k,
            r@[0]@ == "Weather for: "@ + data.request@[0].query@,
            r@[1]@.len() == 0,
            r@[2]@.len() == 0,
            forall|j: int| 0 <= j < 5 ==> (#[trigger] r@[3 + j]@)
                == data.current_condition@[0].cell_spec(cfg.use_zh, j),
            forall|j: int|
                0 <= j < 5 ==> visible_width(#[trigger] r@[3 + j]@) == CELL_WIDTH as int
                    && well_styled(r@[3 + j]@),
            forall|k2: int|
                0 <= k2 < k ==> day_block_ok(
                    #[trigger] r@.subrange(8 + 10 * k2, 18 + 10 * k2),
                    cfg.use_zh,
                    data.weather@[k2],
                ),
        decreases limit - k,
    {
        let ghost old_r = r@;
        let w = &data.weather[k];
        let block = w.day_lines(cfg.use_zh);
        r.push(block[0].clone());
        r.push(block[1].clone());
        r.push(block[2].clone());
        r.push(block[3].clone());
        r.push(block[4].clone());
        r.push(block[5].clone());
        r.push(block[6].clone());
        r.push(block[7].clone());
        r.push(block[8].clone());
        r.push(block[9].clone());
        proof {
            assert(r@.subrange(8 + 10 * k as int, 18 + 10 * k as int) =~= block@);
            assert forall|k2: int|
                0 <= k2 < k + 1 implies day_block_ok(
                #[trigger] r@.subrange(8 + 10 * k2, 18 + 10 * k2),
                cfg.use_zh,
                data.weather@[k2],
            ) by {
                if k2 < k {
                    assert(r@.subrange(8 + 10 * k2, 18 + 10 * k2) =~= old_r.subrange(
                        8 + 10 * k2,
                        18 + 10 * k2,
                    ));
                }
            }
        }
        k = k + 1;
    }
    r
}

} // verus!
