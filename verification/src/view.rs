use vstd::prelude::*;

use crate::app::{App, NoiseTexture, VisualMode};
use crate::canvas::{Canvas, Plot};
use crate::rain::{
    backdrop_band_plots, backdrop_grain_plots, contact_fits, contact_rain_plots,
    fine_particle_plots, floor_splash_plots, hits_fit, in_i32, mark_plot, mark_plots,
    mouse_rain_hit_plots, mouse_wind_hit_plots, rain_sheet_plots, sheet_fits,
    spec_backdrop_band_plots, spec_backdrop_grain_plots, spec_contact_rain_plots,
    spec_fine_particle_plots, spec_floor_splash_plots, spec_mouse_rain_hit_plots,
    spec_mouse_wind_hit_plots, spec_rain_sheet_plots, wind_fits, Mark,
};
use crate::raster::Color;
use crate::sprites::{
    anchor_shadow_plots, center_plots, mouse_palette, spec_anchor_shadow_plots,
    spec_center_plots, spec_mouse_palette,
};

verus! {

/// The frame-dependent values of the weather scene, worked out from the
/// animation clock and the noise level.
pub struct SceneParams {
    pub backdrop_frame: i32,
    pub band_xs: Vec<u16>,
    pub drizzle_frame: i32,
    pub drizzle_density: i32,
    pub marks: Vec<Mark>,
    pub back_fall: i32,
    pub back_density: i32,
    pub front_fall: i32,
    pub front_density: i32,
    pub slant: i32,
    pub splash_frame: i32,
    pub bob: i32,
    pub tail_right: bool,
    pub ratty_enabled: bool,
    pub hit_fall: i32,
    pub hit_density: i32,
    pub hit_phase: i32,
    pub wind_drift: i32,
    pub wind_force: i32,
    pub contact_fall: i32,
    pub shimmer: i32,
}

/// Whether every layer of the scene keeps its arithmetic within `i32`.
pub open spec fn scene_fits(width: i32, height: i32, app: &App, p: &SceneParams) -> bool {
    let cy = (height / 2) as i32;
    let cx = (width / 2) as i32;
    &&& p.band_xs@.len() <= i32::MAX - u16::MAX
    &&& in_i32(p.drizzle_frame + 29)
    &&& sheet_fits(width, false, p.back_fall, p.back_density, p.slant)
    &&& in_i32(p.splash_frame + 7)
    &&& app.visual_mode == VisualMode::TwoD ==> (in_i32(cy - 4 + p.bob) && in_i32(cy - 4 + p.bob + 7))
    &&& hits_fit(cx, p.hit_fall, p.hit_density, p.slant, p.hit_phase)
    &&& app.noise_texture == NoiseTexture::Wind ==> wind_fits(p.wind_drift, p.wind_force)
    &&& sheet_fits(width, true, p.front_fall, p.front_density, p.slant)
    &&& contact_fits(cx, p.contact_fall, p.shimmer)
}

/// The layers of the weather scene over a `width` x `height` canvas, in drawing
/// order: backdrop grain and bands, drizzle, burst particles, the back rain
/// sheet, floor splashes, the mouse (2D art, or the anchor of the 3D object),
/// rain on the mouse and, in the wind, gusts across it, the front rain sheet,
/// and rain meeting its body. The mouse is centred on the canvas.
pub open spec fn spec_scene_plots(width: i32, height: i32, app: &App, p: &SceneParams) -> Seq<Plot> {
    let cx = (width / 2) as i32;
    let cy = (height / 2) as i32;
    spec_backdrop_grain_plots(width, height, p.backdrop_frame) + spec_backdrop_band_plots(
        p.band_xs@,
        height,
    ) + spec_fine_particle_plots(width, height, p.drizzle_frame, p.drizzle_density)
        + p.marks@.map_values(|m: Mark| mark_plot(m)) + spec_rain_sheet_plots(
        width,
        height,
        p.back_fall,
        p.back_density,
        p.slant,
        false,
    ) + spec_floor_splash_plots(width, height, cx, cy, p.splash_frame) + (if app.visual_mode
        == VisualMode::TwoD {
        spec_center_plots(
            cx,
            cy,
            p.bob,
            p.tail_right,
            spec_mouse_palette(app.gate_open, app.waveform, app.noise_texture),
        )
    } else {
        spec_anchor_shadow_plots(cx, cy, app.gate_open, p.ratty_enabled)
    }) + spec_mouse_rain_hit_plots(cx, cy, p.hit_fall, p.hit_density, p.slant, p.hit_phase) + (
    if app.noise_texture == NoiseTexture::Wind {
        spec_mouse_wind_hit_plots(cx, cy, p.wind_drift, p.wind_force)
    } else {
        seq![]
    }) + spec_rain_sheet_plots(width, height, p.front_fall, p.front_density, p.slant, true)
        + spec_contact_rain_plots(cx, cy, p.contact_fall, p.shimmer)
}

fn take_all(plots: &mut Vec<Plot>, more: Vec<Plot>)
    ensures
        final(plots)@ == old(plots)@ + more@,
{
    let mut more = more;
    plots.append(&mut more);
}

/// The plots of the whole weather scene; `None` when some layer's arithmetic
/// leaves `i32`.
pub fn scene_plots(width: i32, height: i32, app: &App, p: &SceneParams) -> (plots: Option<Vec<Plot>>)
    requires
        1 <= width <= u16::MAX,
        1 <= height <= u16::MAX,
    ensures
        plots is Some <==> scene_fits(width, height, app, p),
        plots matches Some(v) ==> v@ == spec_scene_plots(width, height, app, p),
{
    let cx = width / 2;
    let cy = height / 2;
    if p.band_xs.len() > (i32::MAX - 65535) as usize {
        return None;
    }
    let mut plots = backdrop_grain_plots(width, height, p.backdrop_frame);
    take_all(&mut plots, backdrop_band_plots(&p.band_xs, height));
    match fine_particle_plots(width, height, p.drizzle_frame, p.drizzle_density) {
        Some(v) => take_all(&mut plots, v),
        None => {
            return None;
        },
    }
    take_all(&mut plots, mark_plots(&p.marks));
    match rain_sheet_plots(width, height, p.back_fall, p.back_density, p.slant, false) {
        Some(v) => take_all(&mut plots, v),
        None => {
            return None;
        },
    }
    match floor_splash_plots(width, height, cx, cy, p.splash_frame) {
        Some(v) => take_all(&mut plots, v),
        None => {
            return None;
        },
    }
    if app.visual_mode == VisualMode::TwoD {
        let start = match cy.checked_sub(4) {
            Some(v) => v.checked_add(p.bob),
            None => None,
        };
        match start {
            Some(s) => {
                if s.checked_add(7).is_none() {
                    return None;
                }
            },
            None => {
                return None;
            },
        }
        let palette = mouse_palette(app);
        take_all(&mut plots, center_plots(cx, cy, p.bob, p.tail_right, palette));
    } else {
        take_all(&mut plots, anchor_shadow_plots(cx, cy, app.gate_open, p.ratty_enabled));
    }
    match mouse_rain_hit_plots(cx, cy, p.hit_fall, p.hit_density, p.slant, p.hit_phase) {
        Some(v) => take_all(&mut plots, v),
        None => {
            return None;
        },
    }
    if app.noise_texture == NoiseTexture::Wind {
        match mouse_wind_hit_plots(cx, cy, p.wind_drift, p.wind_force) {
            Some(v) => take_all(&mut plots, v),
            None => {
                return None;
            },
        }
    }
    match rain_sheet_plots(width, height, p.front_fall, p.front_density, p.slant, true) {
        Some(v) => take_all(&mut plots, v),
        None => {
            return None;
        },
    }
    match contact_rain_plots(cx, cy, p.contact_fall, p.shimmer) {
        Some(v) => take_all(&mut plots, v),
        None => {
            return None;
        },
    }
    Some(plots)
}

/// The weather scene drawn on a blank `width` x `height` canvas (blanks in dark
/// gray); `None` when some layer's arithmetic leaves `i32`.
pub fn draw_scene(width: u16, height: u16, app: &App, p: &SceneParams) -> (canvas: Option<Canvas>)
    ensures
        canvas is Some <==> scene_fits(
            if width < 1 {
                1i32
            } else {
                width as i32
            },
            if height < 1 {
                1i32
            } else {
                height as i32
            },
            app,
            p,
        ),
        canvas matches Some(c) ==> {
            let w = if width < 1 {
                1i32
            } else {
                width as i32
            };
            let h = if height < 1 {
                1i32
            } else {
                height as i32
            };
            &&& c.wf()
            &&& c.spec_width() == w
            &&& c.spec_height() == h
            &&& forall|x: int, y: int|
                c.in_bounds(x, y) ==> #[trigger] c.cell(x, y) == crate::canvas::painted(
                    spec_scene_plots(w, h, app, p),
                    x,
                    y,
                    (' ', Color::DarkGray),
                )
        },
{
    let w: i32 = if width < 1 {
        1
    } else {
        width as i32
    };
    let h: i32 = if height < 1 {
        1
    } else {
        height as i32
    };
    match scene_plots(w, h, app, p) {
        Some(plots) => {
            let mut canvas = Canvas::new(w as usize, h as usize, Color::DarkGray);
            canvas.plot_all(&plots);
            Some(canvas)
        },
        None => None,
    }
}

} // verus!
